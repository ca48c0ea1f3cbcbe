//! The health probe that the web API answers on `GET /health`.

use vstd::prelude::*;
use vstd::utf8::{decode_utf8, valid_utf8};

use crate::health_status;
use crate::text::{c_text, c_text_view, field_bytes, same_text};

verus! {

/// Health probe response from `GET /health`.
#[derive(Clone, Debug)]
pub struct HealthCheck {
    /// Status of the service, one of the names in `health_status`.
    pub status: String,
    /// Version of the engine.
    pub version: String,
}

/// A `HealthCheck` as the engine's C interface hands it over: each text field is
/// the bytes before its terminating NUL, or `None` where the pointer was null.
#[derive(Clone, Debug)]
pub struct HealthCheckRecord {
    pub status: Option<Vec<u8>>,
    pub version: Option<Vec<u8>>,
}

impl HealthCheck {
    /// Every text field is empty and every number zero.
    pub open spec fn is_blank(self) -> bool {
        &&& self.status@.len() == 0
        &&& self.version@.len() == 0
    }

    /// Each field holds what the record's field of the same name holds.
    pub open spec fn read_from(self, record: HealthCheckRecord) -> bool {
        &&& self.status@ == c_text_view(field_bytes(&record.status))
        &&& self.version@ == c_text_view(field_bytes(&record.version))
    }

    /// Builds the `HealthCheck` from the record that the engine's C interface returned;
    /// a null record gives `None`.
    pub fn from_c(record: Option<HealthCheckRecord>) -> (built: Option<HealthCheck>)
        ensures
            record is None ==> built is None,
            record matches Some(r) ==> (built matches Some(b) && b.read_from(r)),
            record matches Some(r) ==> (built matches Some(b) && (
                b.status@ == c_text_view(field_bytes(&r.status))
                && b.version@ == c_text_view(field_bytes(&r.version))
            )),
    {
        match record {
            None => None,
            Some(r) => Some(HealthCheck {
                status: c_text(&r.status),
                version: c_text(&r.version),
            }),
        }
    }

    /// The service is up exactly when its status reads `UP`.
    pub fn is_up(&self) -> (up: bool)
        ensures
            up == (self.status@ == health_status::UP@),
    {
        same_text(self.status.as_str(), health_status::UP)
    }
}

/// A `HealthCheck` built from a record holds in each field what the record's field of
/// the same name holds: a number as it is, and a text field the characters its
/// bytes encode, or no text where the field was null.
pub proof fn law_health_check_fields_come_from_their_namesakes(built: HealthCheck, record: HealthCheckRecord)
    requires
        built.read_from(record),
    ensures
        record.status is None ==> built.status@.len() == 0,
        record.status matches Some(v) ==> (valid_utf8(v@) ==> built.status@ == decode_utf8(v@)),
        record.version is None ==> built.version@.len() == 0,
        record.version matches Some(v) ==> (valid_utf8(v@) ==> built.version@ == decode_utf8(v@)),
{
}

impl Default for HealthCheck {
    fn default() -> (blank: HealthCheck)
        ensures
            blank.is_blank(),
    {
        HealthCheck {
            status: String::new(),
            version: String::new(),
        }
    }
}

} // verus!
