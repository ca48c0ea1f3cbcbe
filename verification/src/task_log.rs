//! Log entries returned by `GET /tasks/:id/log`.

use vstd::prelude::*;
use vstd::utf8::{decode_utf8, valid_utf8};

use crate::decimal::{decimal_i32_or_zero, parse_i32};
use crate::text::{c_text, c_text_view, field_bytes};

verus! {

/// A single log entry returned by `GET /tasks/:id/log`.
#[derive(Clone, Debug)]
pub struct TaskLogPart {
    /// Identifier of the entry.
    pub id: String,
    /// Identifier of the task that logged it.
    pub task_id: String,
    /// Number of the entry within the log; zero where the engine handed over text that writes no `i32`.
    pub number: i32,
    /// Text of the entry.
    pub contents: String,
}

/// A `TaskLogPart` as the engine's C interface hands it over: each text field is
/// the bytes before its terminating NUL, or `None` where the pointer was null.
#[derive(Clone, Debug)]
pub struct TaskLogPartRecord {
    pub id: Option<Vec<u8>>,
    pub task_id: Option<Vec<u8>>,
    pub number: Option<Vec<u8>>,
    pub contents: Option<Vec<u8>>,
}

impl TaskLogPart {
    /// Every text field is empty and every number zero.
    pub open spec fn is_blank(self) -> bool {
        &&& self.id@.len() == 0
        &&& self.task_id@.len() == 0
        &&& self.number == 0
        &&& self.contents@.len() == 0
    }

    /// Each field holds what the record's field of the same name holds.
    pub open spec fn read_from(self, record: TaskLogPartRecord) -> bool {
        &&& self.id@ == c_text_view(field_bytes(&record.id))
        &&& self.task_id@ == c_text_view(field_bytes(&record.task_id))
        &&& self.number == decimal_i32_or_zero(c_text_view(field_bytes(&record.number)))
        &&& self.contents@ == c_text_view(field_bytes(&record.contents))
    }

    /// Builds the `TaskLogPart` from the record that the engine's C interface returned;
    /// a null record gives `None`.
    pub fn from_c(record: Option<TaskLogPartRecord>) -> (built: Option<TaskLogPart>)
        ensures
            record is None ==> built is None,
            record matches Some(r) ==> (built matches Some(b) && b.read_from(r)),
            record matches Some(r) ==> (built matches Some(b) && (
                b.id@ == c_text_view(field_bytes(&r.id))
                && b.task_id@ == c_text_view(field_bytes(&r.task_id))
                && b.number == decimal_i32_or_zero(c_text_view(field_bytes(&r.number)))
                && b.contents@ == c_text_view(field_bytes(&r.contents))
            )),
    {
        match record {
            None => None,
            Some(r) => Some(TaskLogPart {
                id: c_text(&r.id),
                task_id: c_text(&r.task_id),
                number: parse_i32(c_text(&r.number).as_str()).unwrap_or(0),
                contents: c_text(&r.contents),
            }),
        }
    }
}

/// A `TaskLogPart` built from a record holds in each field what the record's field of
/// the same name holds: a number as it is, and a text field the characters its
/// bytes encode, or no text where the field was null.
pub proof fn law_task_log_part_fields_come_from_their_namesakes(built: TaskLogPart, record: TaskLogPartRecord)
    requires
        built.read_from(record),
    ensures
        record.id is None ==> built.id@.len() == 0,
        record.id matches Some(v) ==> (valid_utf8(v@) ==> built.id@ == decode_utf8(v@)),
        record.task_id is None ==> built.task_id@.len() == 0,
        record.task_id matches Some(v) ==> (valid_utf8(v@) ==> built.task_id@ == decode_utf8(v@)),
        record.number is None ==> built.number == 0,
        record.number matches Some(v) ==> (valid_utf8(v@) ==> built.number == decimal_i32_or_zero(decode_utf8(v@))),
        record.contents is None ==> built.contents@.len() == 0,
        record.contents matches Some(v) ==> (valid_utf8(v@) ==> built.contents@ == decode_utf8(v@)),
{
}

impl Default for TaskLogPart {
    fn default() -> (blank: TaskLogPart)
        ensures
            blank.is_blank(),
    {
        TaskLogPart {
            id: String::new(),
            task_id: String::new(),
            number: 0,
            contents: String::new(),
        }
    }
}

} // verus!
