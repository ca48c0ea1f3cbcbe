//! Broker queue statistics returned by `GET /queues`.

use vstd::prelude::*;
use vstd::utf8::{decode_utf8, valid_utf8};

use crate::text::{c_text, c_text_view, field_bytes};

verus! {

/// Broker queue statistics returned by `GET /queues`.
#[derive(Clone, Debug)]
pub struct QueueInfo {
    /// Name of the queue.
    pub name: String,
    /// Number of messages waiting.
    pub size: i32,
    /// Number of consumers.
    pub subscribers: i32,
    /// Number of messages delivered and not yet acknowledged.
    pub unacked: i32,
}

/// A `QueueInfo` as the engine's C interface hands it over: each text field is
/// the bytes before its terminating NUL, or `None` where the pointer was null.
#[derive(Clone, Debug)]
pub struct QueueInfoRecord {
    pub name: Option<Vec<u8>>,
    pub size: i32,
    pub subscribers: i32,
    pub unacked: i32,
}

impl QueueInfo {
    /// Every text field is empty and every number zero.
    pub open spec fn is_blank(self) -> bool {
        &&& self.name@.len() == 0
        &&& self.size == 0
        &&& self.subscribers == 0
        &&& self.unacked == 0
    }

    /// Each field holds what the record's field of the same name holds.
    pub open spec fn read_from(self, record: QueueInfoRecord) -> bool {
        &&& self.name@ == c_text_view(field_bytes(&record.name))
        &&& self.size == record.size
        &&& self.subscribers == record.subscribers
        &&& self.unacked == record.unacked
    }

    /// Builds the `QueueInfo` from the record that the engine's C interface returned;
    /// a null record gives `None`.
    pub fn from_c(record: Option<QueueInfoRecord>) -> (built: Option<QueueInfo>)
        ensures
            record is None ==> built is None,
            record matches Some(r) ==> (built matches Some(b) && b.read_from(r)),
            record matches Some(r) ==> (built matches Some(b) && (
                b.name@ == c_text_view(field_bytes(&r.name))
                && b.size == r.size
                && b.subscribers == r.subscribers
                && b.unacked == r.unacked
            )),
    {
        match record {
            None => None,
            Some(r) => Some(QueueInfo {
                name: c_text(&r.name),
                size: r.size,
                subscribers: r.subscribers,
                unacked: r.unacked,
            }),
        }
    }
}

/// A `QueueInfo` built from a record holds in each field what the record's field of
/// the same name holds: a number as it is, and a text field the characters its
/// bytes encode, or no text where the field was null.
pub proof fn law_queue_info_fields_come_from_their_namesakes(built: QueueInfo, record: QueueInfoRecord)
    requires
        built.read_from(record),
    ensures
        record.name is None ==> built.name@.len() == 0,
        record.name matches Some(v) ==> (valid_utf8(v@) ==> built.name@ == decode_utf8(v@)),
        built.size == record.size,
        built.subscribers == record.subscribers,
        built.unacked == record.unacked,
{
}

impl Default for QueueInfo {
    fn default() -> (blank: QueueInfo)
        ensures
            blank.is_blank(),
    {
        QueueInfo {
            name: String::new(),
            size: 0,
            subscribers: 0,
            unacked: 0,
        }
    }
}

} // verus!
