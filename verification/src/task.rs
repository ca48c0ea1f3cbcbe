//! Tasks: the units of work that workers run, and whether one is still active.

use vstd::prelude::*;
use vstd::utf8::{decode_utf8, valid_utf8};

use crate::task_state;
use crate::text::{c_passable, c_text, c_text_view, field_bytes, free_of_nul, same_text};

verus! {

/// The states in which a task is active: created, pending, scheduled or running.
pub open spec fn active_task_states() -> Seq<Seq<char>> {
    seq![task_state::CREATED@, task_state::PENDING@, task_state::SCHEDULED@, task_state::RUNNING@]
}

/// A state in which a task is active. A state that holds a NUL character is
/// never one: such text cannot reach the engine.
pub open spec fn is_active_state(state: Seq<char>) -> bool {
    c_passable(state) && active_task_states().contains(state)
}

/// A task of the engine.
#[derive(Clone, Debug)]
pub struct Task {
    /// Identifier of the task.
    pub id: String,
    /// Name of the task.
    pub name: String,
    /// Description of the task.
    pub description: String,
    /// State of the task, one of the names in `task_state`.
    pub state: String,
    /// Container image the task runs in.
    pub image: String,
    /// Script that the task runs.
    pub run: String,
    /// Queue the task is sent to.
    pub queue: String,
    /// Error that ended the task, if any.
    pub error: String,
    /// Result of the task.
    pub result: String,
    /// Name of the job variable that receives the result (`var` in JSON).
    pub var_name: String,
    /// Condition under which the task runs (`if` in JSON).
    pub if_expr: String,
    /// Time limit of the task.
    pub timeout: String,
    /// GPUs the task asks for.
    pub gpus: String,
    /// Working directory of the task.
    pub workdir: String,
    /// Position of the task in its job.
    pub position: i32,
    /// Priority of the task.
    pub priority: i32,
    /// Fraction of the task done, as the bit pattern of an IEEE 754 binary64 number.
    pub progress_bits: u64,
}

/// A `Task` as the engine's C interface hands it over: each text field is
/// the bytes before its terminating NUL, or `None` where the pointer was null.
#[derive(Clone, Debug)]
pub struct TaskRecord {
    pub id: Option<Vec<u8>>,
    pub name: Option<Vec<u8>>,
    pub description: Option<Vec<u8>>,
    pub state: Option<Vec<u8>>,
    pub image: Option<Vec<u8>>,
    pub run: Option<Vec<u8>>,
    pub queue: Option<Vec<u8>>,
    pub error: Option<Vec<u8>>,
    pub result: Option<Vec<u8>>,
    pub var_name: Option<Vec<u8>>,
    pub if_expr: Option<Vec<u8>>,
    pub timeout: Option<Vec<u8>>,
    pub gpus: Option<Vec<u8>>,
    pub workdir: Option<Vec<u8>>,
    pub position: i32,
    pub priority: i32,
    pub progress_bits: u64,
}

impl Task {
    /// Every text field is empty and every number zero.
    pub open spec fn is_blank(self) -> bool {
        &&& self.id@.len() == 0
        &&& self.name@.len() == 0
        &&& self.description@.len() == 0
        &&& self.state@.len() == 0
        &&& self.image@.len() == 0
        &&& self.run@.len() == 0
        &&& self.queue@.len() == 0
        &&& self.error@.len() == 0
        &&& self.result@.len() == 0
        &&& self.var_name@.len() == 0
        &&& self.if_expr@.len() == 0
        &&& self.timeout@.len() == 0
        &&& self.gpus@.len() == 0
        &&& self.workdir@.len() == 0
        &&& self.position == 0
        &&& self.priority == 0
        &&& self.progress_bits == 0
    }

    /// Each field holds what the record's field of the same name holds.
    pub open spec fn read_from(self, record: TaskRecord) -> bool {
        &&& self.id@ == c_text_view(field_bytes(&record.id))
        &&& self.name@ == c_text_view(field_bytes(&record.name))
        &&& self.description@ == c_text_view(field_bytes(&record.description))
        &&& self.state@ == c_text_view(field_bytes(&record.state))
        &&& self.image@ == c_text_view(field_bytes(&record.image))
        &&& self.run@ == c_text_view(field_bytes(&record.run))
        &&& self.queue@ == c_text_view(field_bytes(&record.queue))
        &&& self.error@ == c_text_view(field_bytes(&record.error))
        &&& self.result@ == c_text_view(field_bytes(&record.result))
        &&& self.var_name@ == c_text_view(field_bytes(&record.var_name))
        &&& self.if_expr@ == c_text_view(field_bytes(&record.if_expr))
        &&& self.timeout@ == c_text_view(field_bytes(&record.timeout))
        &&& self.gpus@ == c_text_view(field_bytes(&record.gpus))
        &&& self.workdir@ == c_text_view(field_bytes(&record.workdir))
        &&& self.position == record.position
        &&& self.priority == record.priority
        &&& self.progress_bits == record.progress_bits
    }

    /// Builds the `Task` from the record that the engine's C interface returned;
    /// a null record gives `None`.
    pub fn from_c(record: Option<TaskRecord>) -> (built: Option<Task>)
        ensures
            record is None ==> built is None,
            record matches Some(r) ==> (built matches Some(b) && b.read_from(r)),
            record matches Some(r) ==> (built matches Some(b) && (
                b.id@ == c_text_view(field_bytes(&r.id))
                && b.name@ == c_text_view(field_bytes(&r.name))
                && b.description@ == c_text_view(field_bytes(&r.description))
                && b.state@ == c_text_view(field_bytes(&r.state))
                && b.image@ == c_text_view(field_bytes(&r.image))
                && b.run@ == c_text_view(field_bytes(&r.run))
                && b.queue@ == c_text_view(field_bytes(&r.queue))
                && b.error@ == c_text_view(field_bytes(&r.error))
                && b.result@ == c_text_view(field_bytes(&r.result))
                && b.var_name@ == c_text_view(field_bytes(&r.var_name))
                && b.if_expr@ == c_text_view(field_bytes(&r.if_expr))
                && b.timeout@ == c_text_view(field_bytes(&r.timeout))
                && b.gpus@ == c_text_view(field_bytes(&r.gpus))
                && b.workdir@ == c_text_view(field_bytes(&r.workdir))
                && b.position == r.position
                && b.priority == r.priority
                && b.progress_bits == r.progress_bits
            )),
    {
        match record {
            None => None,
            Some(r) => Some(Task {
                id: c_text(&r.id),
                name: c_text(&r.name),
                description: c_text(&r.description),
                state: c_text(&r.state),
                image: c_text(&r.image),
                run: c_text(&r.run),
                queue: c_text(&r.queue),
                error: c_text(&r.error),
                result: c_text(&r.result),
                var_name: c_text(&r.var_name),
                if_expr: c_text(&r.if_expr),
                timeout: c_text(&r.timeout),
                gpus: c_text(&r.gpus),
                workdir: c_text(&r.workdir),
                position: r.position,
                priority: r.priority,
                progress_bits: r.progress_bits,
            }),
        }
    }

    /// Whether the task is active: created, pending, scheduled or running.
    /// A state that holds a NUL character gives `false`.
    pub fn is_active(&self) -> (active: bool)
        ensures
            active == is_active_state(self.state@),
    {
        let state = self.state.as_str();
        if !free_of_nul(state) {
            return false;
        }
        same_text(state, task_state::CREATED) || same_text(state, task_state::PENDING)
            || same_text(state, task_state::SCHEDULED) || same_text(state, task_state::RUNNING)
    }
}

/// A `Task` built from a record holds in each field what the record's field of
/// the same name holds: a number as it is, and a text field the characters its
/// bytes encode, or no text where the field was null.
pub proof fn law_task_fields_come_from_their_namesakes(built: Task, record: TaskRecord)
    requires
        built.read_from(record),
    ensures
        record.id is None ==> built.id@.len() == 0,
        record.id matches Some(v) ==> (valid_utf8(v@) ==> built.id@ == decode_utf8(v@)),
        record.name is None ==> built.name@.len() == 0,
        record.name matches Some(v) ==> (valid_utf8(v@) ==> built.name@ == decode_utf8(v@)),
        record.description is None ==> built.description@.len() == 0,
        record.description matches Some(v) ==> (valid_utf8(v@) ==> built.description@ == decode_utf8(v@)),
        record.state is None ==> built.state@.len() == 0,
        record.state matches Some(v) ==> (valid_utf8(v@) ==> built.state@ == decode_utf8(v@)),
        record.image is None ==> built.image@.len() == 0,
        record.image matches Some(v) ==> (valid_utf8(v@) ==> built.image@ == decode_utf8(v@)),
        record.run is None ==> built.run@.len() == 0,
        record.run matches Some(v) ==> (valid_utf8(v@) ==> built.run@ == decode_utf8(v@)),
        record.queue is None ==> built.queue@.len() == 0,
        record.queue matches Some(v) ==> (valid_utf8(v@) ==> built.queue@ == decode_utf8(v@)),
        record.error is None ==> built.error@.len() == 0,
        record.error matches Some(v) ==> (valid_utf8(v@) ==> built.error@ == decode_utf8(v@)),
        record.result is None ==> built.result@.len() == 0,
        record.result matches Some(v) ==> (valid_utf8(v@) ==> built.result@ == decode_utf8(v@)),
        record.var_name is None ==> built.var_name@.len() == 0,
        record.var_name matches Some(v) ==> (valid_utf8(v@) ==> built.var_name@ == decode_utf8(v@)),
        record.if_expr is None ==> built.if_expr@.len() == 0,
        record.if_expr matches Some(v) ==> (valid_utf8(v@) ==> built.if_expr@ == decode_utf8(v@)),
        record.timeout is None ==> built.timeout@.len() == 0,
        record.timeout matches Some(v) ==> (valid_utf8(v@) ==> built.timeout@ == decode_utf8(v@)),
        record.gpus is None ==> built.gpus@.len() == 0,
        record.gpus matches Some(v) ==> (valid_utf8(v@) ==> built.gpus@ == decode_utf8(v@)),
        record.workdir is None ==> built.workdir@.len() == 0,
        record.workdir matches Some(v) ==> (valid_utf8(v@) ==> built.workdir@ == decode_utf8(v@)),
        built.position == record.position,
        built.priority == record.priority,
        built.progress_bits == record.progress_bits,
{
}

impl Default for Task {
    fn default() -> (blank: Task)
        ensures
            blank.is_blank(),
    {
        Task {
            id: String::new(),
            name: String::new(),
            description: String::new(),
            state: String::new(),
            image: String::new(),
            run: String::new(),
            queue: String::new(),
            error: String::new(),
            result: String::new(),
            var_name: String::new(),
            if_expr: String::new(),
            timeout: String::new(),
            gpus: String::new(),
            workdir: String::new(),
            position: 0,
            priority: 0,
            progress_bits: 0,
        }
    }
}

/// The states in which a task has ended: cancelled, stopped, completed, failed
/// or skipped.
pub open spec fn finished_task_states() -> Seq<Seq<char>> {
    seq![
        task_state::CANCELLED@,
        task_state::STOPPED@,
        task_state::COMPLETED@,
        task_state::FAILED@,
        task_state::SKIPPED@,
    ]
}

/// A task that has ended is never active, and a task in any of the active
/// states is.
pub proof fn law_active_and_finished_states()
    ensures
        forall|i: int| 0 <= i < finished_task_states().len()
            ==> !is_active_state(#[trigger] finished_task_states()[i]),
        forall|i: int| 0 <= i < active_task_states().len()
            ==> is_active_state(#[trigger] active_task_states()[i]),
        is_active_state(task_state::CREATED@),
        is_active_state(task_state::PENDING@),
        is_active_state(task_state::SCHEDULED@),
        is_active_state(task_state::RUNNING@),
        !is_active_state(task_state::CANCELLED@),
        !is_active_state(task_state::STOPPED@),
        !is_active_state(task_state::COMPLETED@),
        !is_active_state(task_state::FAILED@),
        !is_active_state(task_state::SKIPPED@),
{
    reveal_strlit("CREATED");
    reveal_strlit("PENDING");
    reveal_strlit("SCHEDULED");
    reveal_strlit("RUNNING");
    reveal_strlit("CANCELLED");
    reveal_strlit("STOPPED");
    reveal_strlit("COMPLETED");
    reveal_strlit("FAILED");
    reveal_strlit("SKIPPED");
    let active = active_task_states();
    let finished = finished_task_states();
    assert forall|i: int| 0 <= i < active.len() implies is_active_state(#[trigger] active[i]) by {
        assert(active.contains(active[i]));
        assert(!active[i].contains('\0'));
    }
    assert forall|i: int| 0 <= i < finished.len() implies !is_active_state(#[trigger] finished[i]) by {
        if active.contains(finished[i]) {
            let k = choose|k: int| 0 <= k < active.len() && active[k] == finished[i];
            assert(active[k].len() != finished[i].len() || active[k][0] != finished[i][0]
                || active[k][1] != finished[i][1]);
        }
    }
    assert(active[0] == task_state::CREATED@ && active[1] == task_state::PENDING@);
    assert(active[2] == task_state::SCHEDULED@ && active[3] == task_state::RUNNING@);
    assert(finished[0] == task_state::CANCELLED@ && finished[1] == task_state::STOPPED@);
    assert(finished[2] == task_state::COMPLETED@ && finished[3] == task_state::FAILED@);
    assert(finished[4] == task_state::SKIPPED@);
}

} // verus!
