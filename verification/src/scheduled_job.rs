//! Cron-scheduled jobs returned by `GET /scheduled-jobs/:id`.

use vstd::prelude::*;
use vstd::utf8::{decode_utf8, valid_utf8};

use std::collections::HashMap;

use crate::task::Task;
use crate::text::{c_text, c_text_view, field_bytes};

verus! {

/// The map from names to values that `serde_json::from_str` reads out of a
/// JSON text as a `HashMap<String, String>`, or `None` where it reads none.
pub uninterp spec fn json_string_map(text: Seq<char>) -> Option<Map<Seq<char>, Seq<char>>>;

/// Reads a JSON object of string values with `serde_json::from_str` into a
/// `HashMap<String, String>`. Claimed of it: what it reads is a function of the
/// text alone, named `json_string_map`, taken by the map's deep view. Which
/// texts read as such an object, and what a repeated name maps to, is left to
/// serde_json and unsaid here.
#[verifier::external_body]
fn read_string_map(text: &str) -> (read: Option<HashMap<String, String>>)
    ensures
        read is Some == json_string_map(text@) is Some,
        read matches Some(m) ==> m.deep_view() == json_string_map(text@)->0,
{
    serde_json::from_str(text).ok()
}

/// The inputs that a schedule's `inputs_json` holds: none where the text is
/// empty or does not read as an object of string values.
pub open spec fn scheduled_inputs(inputs_json: Seq<char>) -> Map<Seq<char>, Seq<char>> {
    if inputs_json.len() == 0 {
        Map::empty()
    } else {
        match json_string_map(inputs_json) {
            Some(m) => m,
            None => Map::empty(),
        }
    }
}

/// Full scheduled job returned by `GET /scheduled-jobs/:id`.
#[derive(Clone, Debug)]
pub struct ScheduledJob {
    /// Identifier of the scheduled job.
    pub id: String,
    /// Name of the scheduled job.
    pub name: String,
    /// Description of the scheduled job.
    pub description: String,
    /// State of the schedule, one of the names in `scheduled_job_state`.
    pub state: String,
    /// Cron expression of the schedule.
    pub cron: String,
    /// Output expression of the jobs it starts.
    pub output: String,
    /// Time of creation.
    pub created_at: String,
    /// Tasks serialized as a JSON array string.
    pub tasks_json: String,
    /// Inputs serialized as a JSON object string.
    pub inputs_json: String,
}

/// A `ScheduledJob` as the engine's C interface hands it over: each text field is
/// the bytes before its terminating NUL, or `None` where the pointer was null.
#[derive(Clone, Debug)]
pub struct ScheduledJobRecord {
    pub id: Option<Vec<u8>>,
    pub name: Option<Vec<u8>>,
    pub description: Option<Vec<u8>>,
    pub state: Option<Vec<u8>>,
    pub cron: Option<Vec<u8>>,
    pub output: Option<Vec<u8>>,
    pub created_at: Option<Vec<u8>>,
    pub tasks_json: Option<Vec<u8>>,
    pub inputs_json: Option<Vec<u8>>,
}

impl ScheduledJob {
    /// Every text field is empty and every number zero.
    pub open spec fn is_blank(self) -> bool {
        &&& self.id@.len() == 0
        &&& self.name@.len() == 0
        &&& self.description@.len() == 0
        &&& self.state@.len() == 0
        &&& self.cron@.len() == 0
        &&& self.output@.len() == 0
        &&& self.created_at@.len() == 0
        &&& self.tasks_json@.len() == 0
        &&& self.inputs_json@.len() == 0
    }

    /// Each field holds what the record's field of the same name holds.
    pub open spec fn read_from(self, record: ScheduledJobRecord) -> bool {
        &&& self.id@ == c_text_view(field_bytes(&record.id))
        &&& self.name@ == c_text_view(field_bytes(&record.name))
        &&& self.description@ == c_text_view(field_bytes(&record.description))
        &&& self.state@ == c_text_view(field_bytes(&record.state))
        &&& self.cron@ == c_text_view(field_bytes(&record.cron))
        &&& self.output@ == c_text_view(field_bytes(&record.output))
        &&& self.created_at@ == c_text_view(field_bytes(&record.created_at))
        &&& self.tasks_json@ == c_text_view(field_bytes(&record.tasks_json))
        &&& self.inputs_json@ == c_text_view(field_bytes(&record.inputs_json))
    }

    /// The tasks of the schedule. `parsed` is what `tasks_json` reads as,
    /// a list of tasks, or `None` where it reads as none. No text gives no
    /// tasks, and so does text that reads as no list.
    pub fn tasks(&self, parsed: Option<Vec<Task>>) -> (tasks: Vec<Task>)
        ensures
            self.tasks_json@.len() == 0 ==> tasks@.len() == 0,
            self.tasks_json@.len() != 0 ==> tasks@ == match parsed {
                Some(v) => v@,
                None => Seq::<Task>::empty(),
            },
    {
        if self.tasks_json.as_str().is_empty() {
            return Vec::new();
        }
        match parsed {
            Some(v) => v,
            None => Vec::new(),
        }
    }

    /// The inputs of the schedule, read from `inputs_json`.
    pub fn inputs(&self) -> (inputs: HashMap<String, String>)
        ensures
            inputs.deep_view() == scheduled_inputs(self.inputs_json@),
    {
        let text = self.inputs_json.as_str();
        let read = if text.is_empty() {
            None
        } else {
            read_string_map(text)
        };
        self.inputs_from(read)
    }

    /// The inputs of the schedule, given what `inputs_json` reads as: `None`
    /// where it reads as no object of string values. No text gives no inputs,
    /// and so does text that reads as no object.
    pub fn inputs_from(&self, read: Option<HashMap<String, String>>) -> (inputs: HashMap<String, String>)
        ensures
            self.inputs_json@.len() == 0 ==> inputs.deep_view() == Map::<Seq<char>, Seq<char>>::empty(),
            self.inputs_json@.len() != 0 ==> inputs.deep_view() == match read {
                Some(m) => m.deep_view(),
                None => Map::<Seq<char>, Seq<char>>::empty(),
            },
    {
        if self.inputs_json.as_str().is_empty() {
            return empty_string_map();
        }
        match read {
            Some(m) => m,
            None => empty_string_map(),
        }
    }

    /// Builds the `ScheduledJob` from the record that the engine's C interface returned;
    /// a null record gives `None`.
    pub fn from_c(record: Option<ScheduledJobRecord>) -> (built: Option<ScheduledJob>)
        ensures
            record is None ==> built is None,
            record matches Some(r) ==> (built matches Some(b) && b.read_from(r)),
            record matches Some(r) ==> (built matches Some(b) && (
                b.id@ == c_text_view(field_bytes(&r.id))
                && b.name@ == c_text_view(field_bytes(&r.name))
                && b.description@ == c_text_view(field_bytes(&r.description))
                && b.state@ == c_text_view(field_bytes(&r.state))
                && b.cron@ == c_text_view(field_bytes(&r.cron))
                && b.output@ == c_text_view(field_bytes(&r.output))
                && b.created_at@ == c_text_view(field_bytes(&r.created_at))
                && b.tasks_json@ == c_text_view(field_bytes(&r.tasks_json))
                && b.inputs_json@ == c_text_view(field_bytes(&r.inputs_json))
            )),
    {
        match record {
            None => None,
            Some(r) => Some(ScheduledJob {
                id: c_text(&r.id),
                name: c_text(&r.name),
                description: c_text(&r.description),
                state: c_text(&r.state),
                cron: c_text(&r.cron),
                output: c_text(&r.output),
                created_at: c_text(&r.created_at),
                tasks_json: c_text(&r.tasks_json),
                inputs_json: c_text(&r.inputs_json),
            }),
        }
    }

}

/// An empty map from strings to strings.
fn empty_string_map() -> (m: HashMap<String, String>)
    ensures
        m.deep_view() == Map::<Seq<char>, Seq<char>>::empty(),
{
    let m: HashMap<String, String> = HashMap::new();
    proof {
        broadcast use vstd::std_specs::hash::lemma_hashmap_deepview_dom;
        assert(m.deep_view().dom() =~= Set::<Seq<char>>::empty());
        assert(m.deep_view() =~= Map::<Seq<char>, Seq<char>>::empty());
    }
    m
}

/// A `ScheduledJob` built from a record holds in each field what the record's field of
/// the same name holds: a number as it is, and a text field the characters its
/// bytes encode, or no text where the field was null.
pub proof fn law_scheduled_job_fields_come_from_their_namesakes(built: ScheduledJob, record: ScheduledJobRecord)
    requires
        built.read_from(record),
    ensures
        record.id is None ==> built.id@.len() == 0,
        record.id matches Some(v) ==> (valid_utf8(v@) ==> built.id@ == decode_utf8(v@)),
        record.name is None ==> built.name@.len() == 0,
        record.name matches Some(v) ==> (valid_utf8(v@) ==> built.name@ == decode_utf8(v@)),
        record.description is None ==> built.description@.len() == 0,
        record.description matches Some(v) ==> (valid_utf8(v@) ==> built.description@ == decode_utf8(v@)),
        record.state is None ==> built.state@.len() == 0,
        record.state matches Some(v) ==> (valid_utf8(v@) ==> built.state@ == decode_utf8(v@)),
        record.cron is None ==> built.cron@.len() == 0,
        record.cron matches Some(v) ==> (valid_utf8(v@) ==> built.cron@ == decode_utf8(v@)),
        record.output is None ==> built.output@.len() == 0,
        record.output matches Some(v) ==> (valid_utf8(v@) ==> built.output@ == decode_utf8(v@)),
        record.created_at is None ==> built.created_at@.len() == 0,
        record.created_at matches Some(v) ==> (valid_utf8(v@) ==> built.created_at@ == decode_utf8(v@)),
        record.tasks_json is None ==> built.tasks_json@.len() == 0,
        record.tasks_json matches Some(v) ==> (valid_utf8(v@) ==> built.tasks_json@ == decode_utf8(v@)),
        record.inputs_json is None ==> built.inputs_json@.len() == 0,
        record.inputs_json matches Some(v) ==> (valid_utf8(v@) ==> built.inputs_json@ == decode_utf8(v@)),
{
}

impl Default for ScheduledJob {
    fn default() -> (blank: ScheduledJob)
        ensures
            blank.is_blank(),
    {
        ScheduledJob {
            id: String::new(),
            name: String::new(),
            description: String::new(),
            state: String::new(),
            cron: String::new(),
            output: String::new(),
            created_at: String::new(),
            tasks_json: String::new(),
            inputs_json: String::new(),
        }
    }
}

} // verus!
