//! Compact job information returned by `GET /jobs` and `POST /jobs`.

use vstd::prelude::*;
use vstd::utf8::{decode_utf8, valid_utf8};

use crate::text::{c_text, c_text_view, field_bytes};

verus! {

/// Compact job information returned by `GET /jobs` and `POST /jobs`.
#[derive(Clone, Debug)]
pub struct JobSummary {
    /// Identifier of the job.
    pub id: String,
    /// Identifier of the task that spawned the job, if any.
    pub parent_id: String,
    /// Name of the job.
    pub name: String,
    /// Description of the job.
    pub description: String,
    /// State of the job.
    pub state: String,
    /// Result of the job.
    pub result: String,
    /// Error that ended the job, if any.
    pub error: String,
    /// Time of creation.
    pub created_at: String,
    /// Time the job started, if it did.
    pub started_at: String,
    /// Time the job completed, if it did.
    pub completed_at: String,
    /// Time the job failed, if it did.
    pub failed_at: String,
    /// Position of the task that runs next.
    pub position: i32,
    /// Number of tasks in the job.
    pub task_count: i32,
    /// Fraction of the job done, as the bit pattern of an IEEE 754 binary64 number.
    pub progress_bits: u64,
}

/// A `JobSummary` as the engine's C interface hands it over: each text field is
/// the bytes before its terminating NUL, or `None` where the pointer was null.
#[derive(Clone, Debug)]
pub struct JobSummaryRecord {
    pub id: Option<Vec<u8>>,
    pub parent_id: Option<Vec<u8>>,
    pub name: Option<Vec<u8>>,
    pub description: Option<Vec<u8>>,
    pub state: Option<Vec<u8>>,
    pub result: Option<Vec<u8>>,
    pub error: Option<Vec<u8>>,
    pub created_at: Option<Vec<u8>>,
    pub started_at: Option<Vec<u8>>,
    pub completed_at: Option<Vec<u8>>,
    pub failed_at: Option<Vec<u8>>,
    pub position: i32,
    pub task_count: i32,
    pub progress_bits: u64,
}

impl JobSummary {
    /// Every text field is empty and every number zero.
    pub open spec fn is_blank(self) -> bool {
        &&& self.id@.len() == 0
        &&& self.parent_id@.len() == 0
        &&& self.name@.len() == 0
        &&& self.description@.len() == 0
        &&& self.state@.len() == 0
        &&& self.result@.len() == 0
        &&& self.error@.len() == 0
        &&& self.created_at@.len() == 0
        &&& self.started_at@.len() == 0
        &&& self.completed_at@.len() == 0
        &&& self.failed_at@.len() == 0
        &&& self.position == 0
        &&& self.task_count == 0
        &&& self.progress_bits == 0
    }

    /// Each field holds what the record's field of the same name holds.
    pub open spec fn read_from(self, record: JobSummaryRecord) -> bool {
        &&& self.id@ == c_text_view(field_bytes(&record.id))
        &&& self.parent_id@ == c_text_view(field_bytes(&record.parent_id))
        &&& self.name@ == c_text_view(field_bytes(&record.name))
        &&& self.description@ == c_text_view(field_bytes(&record.description))
        &&& self.state@ == c_text_view(field_bytes(&record.state))
        &&& self.result@ == c_text_view(field_bytes(&record.result))
        &&& self.error@ == c_text_view(field_bytes(&record.error))
        &&& self.created_at@ == c_text_view(field_bytes(&record.created_at))
        &&& self.started_at@ == c_text_view(field_bytes(&record.started_at))
        &&& self.completed_at@ == c_text_view(field_bytes(&record.completed_at))
        &&& self.failed_at@ == c_text_view(field_bytes(&record.failed_at))
        &&& self.position == record.position
        &&& self.task_count == record.task_count
        &&& self.progress_bits == record.progress_bits
    }

    /// Builds the `JobSummary` from the record that the engine's C interface returned;
    /// a null record gives `None`.
    pub fn from_c(record: Option<JobSummaryRecord>) -> (built: Option<JobSummary>)
        ensures
            record is None ==> built is None,
            record matches Some(r) ==> (built matches Some(b) && b.read_from(r)),
            record matches Some(r) ==> (built matches Some(b) && (
                b.id@ == c_text_view(field_bytes(&r.id))
                && b.parent_id@ == c_text_view(field_bytes(&r.parent_id))
                && b.name@ == c_text_view(field_bytes(&r.name))
                && b.description@ == c_text_view(field_bytes(&r.description))
                && b.state@ == c_text_view(field_bytes(&r.state))
                && b.result@ == c_text_view(field_bytes(&r.result))
                && b.error@ == c_text_view(field_bytes(&r.error))
                && b.created_at@ == c_text_view(field_bytes(&r.created_at))
                && b.started_at@ == c_text_view(field_bytes(&r.started_at))
                && b.completed_at@ == c_text_view(field_bytes(&r.completed_at))
                && b.failed_at@ == c_text_view(field_bytes(&r.failed_at))
                && b.position == r.position
                && b.task_count == r.task_count
                && b.progress_bits == r.progress_bits
            )),
    {
        match record {
            None => None,
            Some(r) => Some(JobSummary {
                id: c_text(&r.id),
                parent_id: c_text(&r.parent_id),
                name: c_text(&r.name),
                description: c_text(&r.description),
                state: c_text(&r.state),
                result: c_text(&r.result),
                error: c_text(&r.error),
                created_at: c_text(&r.created_at),
                started_at: c_text(&r.started_at),
                completed_at: c_text(&r.completed_at),
                failed_at: c_text(&r.failed_at),
                position: r.position,
                task_count: r.task_count,
                progress_bits: r.progress_bits,
            }),
        }
    }
}

/// A `JobSummary` built from a record holds in each field what the record's field of
/// the same name holds: a number as it is, and a text field the characters its
/// bytes encode, or no text where the field was null.
pub proof fn law_job_summary_fields_come_from_their_namesakes(built: JobSummary, record: JobSummaryRecord)
    requires
        built.read_from(record),
    ensures
        record.id is None ==> built.id@.len() == 0,
        record.id matches Some(v) ==> (valid_utf8(v@) ==> built.id@ == decode_utf8(v@)),
        record.parent_id is None ==> built.parent_id@.len() == 0,
        record.parent_id matches Some(v) ==> (valid_utf8(v@) ==> built.parent_id@ == decode_utf8(v@)),
        record.name is None ==> built.name@.len() == 0,
        record.name matches Some(v) ==> (valid_utf8(v@) ==> built.name@ == decode_utf8(v@)),
        record.description is None ==> built.description@.len() == 0,
        record.description matches Some(v) ==> (valid_utf8(v@) ==> built.description@ == decode_utf8(v@)),
        record.state is None ==> built.state@.len() == 0,
        record.state matches Some(v) ==> (valid_utf8(v@) ==> built.state@ == decode_utf8(v@)),
        record.result is None ==> built.result@.len() == 0,
        record.result matches Some(v) ==> (valid_utf8(v@) ==> built.result@ == decode_utf8(v@)),
        record.error is None ==> built.error@.len() == 0,
        record.error matches Some(v) ==> (valid_utf8(v@) ==> built.error@ == decode_utf8(v@)),
        record.created_at is None ==> built.created_at@.len() == 0,
        record.created_at matches Some(v) ==> (valid_utf8(v@) ==> built.created_at@ == decode_utf8(v@)),
        record.started_at is None ==> built.started_at@.len() == 0,
        record.started_at matches Some(v) ==> (valid_utf8(v@) ==> built.started_at@ == decode_utf8(v@)),
        record.completed_at is None ==> built.completed_at@.len() == 0,
        record.completed_at matches Some(v) ==> (valid_utf8(v@) ==> built.completed_at@ == decode_utf8(v@)),
        record.failed_at is None ==> built.failed_at@.len() == 0,
        record.failed_at matches Some(v) ==> (valid_utf8(v@) ==> built.failed_at@ == decode_utf8(v@)),
        built.position == record.position,
        built.task_count == record.task_count,
        built.progress_bits == record.progress_bits,
{
}

impl Default for JobSummary {
    fn default() -> (blank: JobSummary)
        ensures
            blank.is_blank(),
    {
        JobSummary {
            id: String::new(),
            parent_id: String::new(),
            name: String::new(),
            description: String::new(),
            state: String::new(),
            result: String::new(),
            error: String::new(),
            created_at: String::new(),
            started_at: String::new(),
            completed_at: String::new(),
            failed_at: String::new(),
            position: 0,
            task_count: 0,
            progress_bits: 0,
        }
    }
}

} // verus!
