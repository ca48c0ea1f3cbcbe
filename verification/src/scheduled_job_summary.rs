//! Compact scheduled job information returned by `GET /scheduled-jobs`.

use vstd::prelude::*;
use vstd::utf8::{decode_utf8, valid_utf8};

use crate::text::{c_text, c_text_view, field_bytes};

verus! {

/// Compact scheduled job info returned by `GET /scheduled-jobs`.
#[derive(Clone, Debug)]
pub struct ScheduledJobSummary {
    /// Identifier of the scheduled job.
    pub id: String,
    /// Name of the scheduled job.
    pub name: String,
    /// Description of the scheduled job.
    pub description: String,
    /// State of the schedule, one of the names in `scheduled_job_state`.
    pub state: String,
    /// Cron expression of the schedule.
    pub cron: String,
    /// Time of creation.
    pub created_at: String,
}

/// A `ScheduledJobSummary` as the engine's C interface hands it over: each text field is
/// the bytes before its terminating NUL, or `None` where the pointer was null.
#[derive(Clone, Debug)]
pub struct ScheduledJobSummaryRecord {
    pub id: Option<Vec<u8>>,
    pub name: Option<Vec<u8>>,
    pub description: Option<Vec<u8>>,
    pub state: Option<Vec<u8>>,
    pub cron: Option<Vec<u8>>,
    pub created_at: Option<Vec<u8>>,
}

impl ScheduledJobSummary {
    /// Every text field is empty and every number zero.
    pub open spec fn is_blank(self) -> bool {
        &&& self.id@.len() == 0
        &&& self.name@.len() == 0
        &&& self.description@.len() == 0
        &&& self.state@.len() == 0
        &&& self.cron@.len() == 0
        &&& self.created_at@.len() == 0
    }

    /// Each field holds what the record's field of the same name holds.
    pub open spec fn read_from(self, record: ScheduledJobSummaryRecord) -> bool {
        &&& self.id@ == c_text_view(field_bytes(&record.id))
        &&& self.name@ == c_text_view(field_bytes(&record.name))
        &&& self.description@ == c_text_view(field_bytes(&record.description))
        &&& self.state@ == c_text_view(field_bytes(&record.state))
        &&& self.cron@ == c_text_view(field_bytes(&record.cron))
        &&& self.created_at@ == c_text_view(field_bytes(&record.created_at))
    }

    /// Builds the `ScheduledJobSummary` from the record that the engine's C interface returned;
    /// a null record gives `None`.
    pub fn from_c(record: Option<ScheduledJobSummaryRecord>) -> (built: Option<ScheduledJobSummary>)
        ensures
            record is None ==> built is None,
            record matches Some(r) ==> (built matches Some(b) && b.read_from(r)),
            record matches Some(r) ==> (built matches Some(b) && (
                b.id@ == c_text_view(field_bytes(&r.id))
                && b.name@ == c_text_view(field_bytes(&r.name))
                && b.description@ == c_text_view(field_bytes(&r.description))
                && b.state@ == c_text_view(field_bytes(&r.state))
                && b.cron@ == c_text_view(field_bytes(&r.cron))
                && b.created_at@ == c_text_view(field_bytes(&r.created_at))
            )),
    {
        match record {
            None => None,
            Some(r) => Some(ScheduledJobSummary {
                id: c_text(&r.id),
                name: c_text(&r.name),
                description: c_text(&r.description),
                state: c_text(&r.state),
                cron: c_text(&r.cron),
                created_at: c_text(&r.created_at),
            }),
        }
    }
}

/// A `ScheduledJobSummary` built from a record holds in each field what the record's field of
/// the same name holds: a number as it is, and a text field the characters its
/// bytes encode, or no text where the field was null.
pub proof fn law_scheduled_job_summary_fields_come_from_their_namesakes(built: ScheduledJobSummary, record: ScheduledJobSummaryRecord)
    requires
        built.read_from(record),
    ensures
        record.id is None ==> built.id@.len() == 0,
        record.id matches Some(v) ==> (valid_utf8(v@) ==> built.id@ == decode_utf8(v@)),
        record.name is None ==> built.name@.len() == 0,
        record.name matches Some(v) ==> (valid_utf8(v@) ==> built.name@ == decode_utf8(v@)),
        record.description is None ==> built.description@.len() == 0,
        record.description matches Some(v) ==> (valid_utf8(v@) ==> built.description@ == decode_utf8(v@)),
        record.state is None ==> built.state@.len() == 0,
        record.state matches Some(v) ==> (valid_utf8(v@) ==> built.state@ == decode_utf8(v@)),
        record.cron is None ==> built.cron@.len() == 0,
        record.cron matches Some(v) ==> (valid_utf8(v@) ==> built.cron@ == decode_utf8(v@)),
        record.created_at is None ==> built.created_at@.len() == 0,
        record.created_at matches Some(v) ==> (valid_utf8(v@) ==> built.created_at@ == decode_utf8(v@)),
{
}

impl Default for ScheduledJobSummary {
    fn default() -> (blank: ScheduledJobSummary)
        ensures
            blank.is_blank(),
    {
        ScheduledJobSummary {
            id: String::new(),
            name: String::new(),
            description: String::new(),
            state: String::new(),
            cron: String::new(),
            created_at: String::new(),
        }
    }
}

} // verus!
