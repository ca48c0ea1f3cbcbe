//! Jobs: a named sequence of tasks that the engine runs.

use vstd::prelude::*;
use vstd::utf8::{decode_utf8, valid_utf8};

use crate::text::{c_text, c_text_view, field_bytes};

verus! {

/// A job of the engine.
#[derive(Clone, Debug)]
pub struct Job {
    /// Identifier of the job.
    pub id: String,
    /// Identifier of the task that spawned the job, if any.
    pub parent_id: String,
    /// Name of the job.
    pub name: String,
    /// Description of the job.
    pub description: String,
    /// State of the job, one of the names in `job_state`.
    pub state: String,
    /// Output expression of the job.
    pub output: String,
    /// Result of the job.
    pub result: String,
    /// Error that ended the job, if any.
    pub error: String,
    /// Position of the task that runs next.
    pub position: i32,
    /// Number of tasks in the job.
    pub task_count: i32,
}

/// A `Job` as the engine's C interface hands it over: each text field is
/// the bytes before its terminating NUL, or `None` where the pointer was null.
#[derive(Clone, Debug)]
pub struct JobRecord {
    pub id: Option<Vec<u8>>,
    pub parent_id: Option<Vec<u8>>,
    pub name: Option<Vec<u8>>,
    pub description: Option<Vec<u8>>,
    pub state: Option<Vec<u8>>,
    pub output: Option<Vec<u8>>,
    pub result: Option<Vec<u8>>,
    pub error: Option<Vec<u8>>,
    pub position: i32,
    pub task_count: i32,
}

impl Job {
    /// Every text field is empty and every number zero.
    pub open spec fn is_blank(self) -> bool {
        &&& self.id@.len() == 0
        &&& self.parent_id@.len() == 0
        &&& self.name@.len() == 0
        &&& self.description@.len() == 0
        &&& self.state@.len() == 0
        &&& self.output@.len() == 0
        &&& self.result@.len() == 0
        &&& self.error@.len() == 0
        &&& self.position == 0
        &&& self.task_count == 0
    }

    /// Each field holds what the record's field of the same name holds.
    pub open spec fn read_from(self, record: JobRecord) -> bool {
        &&& self.id@ == c_text_view(field_bytes(&record.id))
        &&& self.parent_id@ == c_text_view(field_bytes(&record.parent_id))
        &&& self.name@ == c_text_view(field_bytes(&record.name))
        &&& self.description@ == c_text_view(field_bytes(&record.description))
        &&& self.state@ == c_text_view(field_bytes(&record.state))
        &&& self.output@ == c_text_view(field_bytes(&record.output))
        &&& self.result@ == c_text_view(field_bytes(&record.result))
        &&& self.error@ == c_text_view(field_bytes(&record.error))
        &&& self.position == record.position
        &&& self.task_count == record.task_count
    }

    /// Builds the `Job` from the record that the engine's C interface returned;
    /// a null record gives `None`.
    pub fn from_c(record: Option<JobRecord>) -> (built: Option<Job>)
        ensures
            record is None ==> built is None,
            record matches Some(r) ==> (built matches Some(b) && b.read_from(r)),
            record matches Some(r) ==> (built matches Some(b) && (
                b.id@ == c_text_view(field_bytes(&r.id))
                && b.parent_id@ == c_text_view(field_bytes(&r.parent_id))
                && b.name@ == c_text_view(field_bytes(&r.name))
                && b.description@ == c_text_view(field_bytes(&r.description))
                && b.state@ == c_text_view(field_bytes(&r.state))
                && b.output@ == c_text_view(field_bytes(&r.output))
                && b.result@ == c_text_view(field_bytes(&r.result))
                && b.error@ == c_text_view(field_bytes(&r.error))
                && b.position == r.position
                && b.task_count == r.task_count
            )),
    {
        match record {
            None => None,
            Some(r) => Some(Job {
                id: c_text(&r.id),
                parent_id: c_text(&r.parent_id),
                name: c_text(&r.name),
                description: c_text(&r.description),
                state: c_text(&r.state),
                output: c_text(&r.output),
                result: c_text(&r.result),
                error: c_text(&r.error),
                position: r.position,
                task_count: r.task_count,
            }),
        }
    }
}

/// A `Job` built from a record holds in each field what the record's field of
/// the same name holds: a number as it is, and a text field the characters its
/// bytes encode, or no text where the field was null.
pub proof fn law_job_fields_come_from_their_namesakes(built: Job, record: JobRecord)
    requires
        built.read_from(record),
    ensures
        record.id is None ==> built.id@.len() == 0,
        record.id matches Some(v) ==> (valid_utf8(v@) ==> built.id@ == decode_utf8(v@)),
        record.parent_id is None ==> built.parent_id@.len() == 0,
        record.parent_id matches Some(v) ==> (valid_utf8(v@) ==> built.parent_id@ == decode_utf8(v@)),
        record.name is None ==> built.name@.len() == 0,
        record.name matches Some(v) ==> (valid_utf8(v@) ==> built.name@ == decode_utf8(v@)),
        record.description is None ==> built.description@.len() == 0,
        record.description matches Some(v) ==> (valid_utf8(v@) ==> built.description@ == decode_utf8(v@)),
        record.state is None ==> built.state@.len() == 0,
        record.state matches Some(v) ==> (valid_utf8(v@) ==> built.state@ == decode_utf8(v@)),
        record.output is None ==> built.output@.len() == 0,
        record.output matches Some(v) ==> (valid_utf8(v@) ==> built.output@ == decode_utf8(v@)),
        record.result is None ==> built.result@.len() == 0,
        record.result matches Some(v) ==> (valid_utf8(v@) ==> built.result@ == decode_utf8(v@)),
        record.error is None ==> built.error@.len() == 0,
        record.error matches Some(v) ==> (valid_utf8(v@) ==> built.error@ == decode_utf8(v@)),
        built.position == record.position,
        built.task_count == record.task_count,
{
}

impl Default for Job {
    fn default() -> (blank: Job)
        ensures
            blank.is_blank(),
    {
        Job {
            id: String::new(),
            parent_id: String::new(),
            name: String::new(),
            description: String::new(),
            state: String::new(),
            output: String::new(),
            result: String::new(),
            error: String::new(),
            position: 0,
            task_count: 0,
        }
    }
}

} // verus!
