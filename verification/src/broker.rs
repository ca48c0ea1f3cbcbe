//! Classification of broker queues: which queues the coordinator keeps for
//! itself, which ones workers consume, and which ones carry tasks.

use vstd::prelude::*;

use crate::queue;
use crate::text::{c_passable, free_of_nul, same_text, starts_with_text};

verus! {

/// The queues that only the coordinator consumes: every well-known queue
/// but the default task queue.
pub open spec fn coordinator_queue_names() -> Seq<Seq<char>> {
    seq![
        queue::PENDING@,
        queue::STARTED@,
        queue::COMPLETED@,
        queue::ERROR@,
        queue::HEARTBEAT@,
        queue::JOBS@,
        queue::LOGS@,
        queue::PROGRESS@,
        queue::REDELIVERIES@,
    ]
}

/// The name of a coordinator-internal queue.
pub open spec fn is_coordinator_name(name: Seq<char>) -> bool {
    coordinator_queue_names().contains(name)
}

/// The name of a queue that is exclusive to one worker.
pub open spec fn is_exclusive_name(name: Seq<char>) -> bool {
    queue::EXCLUSIVE_PREFIX@.is_prefix_of(name)
}

/// What `is_coordinator_queue` answers for a name.
pub open spec fn coordinator_queue(name: Seq<char>) -> bool {
    c_passable(name) && is_coordinator_name(name)
}

/// What `is_worker_queue` answers for a name.
pub open spec fn worker_queue(name: Seq<char>) -> bool {
    c_passable(name) && !is_coordinator_name(name)
}

/// What `is_task_queue` answers for a name.
pub open spec fn task_queue(name: Seq<char>) -> bool {
    c_passable(name) && !is_coordinator_name(name) && !is_exclusive_name(name)
}

/// Returns `true` if the queue is a coordinator-internal queue.
/// A name that holds a NUL character is no queue of the engine: it gives `false`.
pub fn is_coordinator_queue(name: &str) -> (coordinator: bool)
    ensures
        coordinator == coordinator_queue(name@),
{
    if !free_of_nul(name) {
        return false;
    }
    let found = same_text(name, queue::PENDING) || same_text(name, queue::STARTED)
        || same_text(name, queue::COMPLETED) || same_text(name, queue::ERROR)
        || same_text(name, queue::HEARTBEAT) || same_text(name, queue::JOBS)
        || same_text(name, queue::LOGS) || same_text(name, queue::PROGRESS)
        || same_text(name, queue::REDELIVERIES);
    proof {
        let names = coordinator_queue_names();
        if found {
            assert(names.contains(name@)) by {
                if name@ == queue::PENDING@ { assert(names[0] == name@); }
                else if name@ == queue::STARTED@ { assert(names[1] == name@); }
                else if name@ == queue::COMPLETED@ { assert(names[2] == name@); }
                else if name@ == queue::ERROR@ { assert(names[3] == name@); }
                else if name@ == queue::HEARTBEAT@ { assert(names[4] == name@); }
                else if name@ == queue::JOBS@ { assert(names[5] == name@); }
                else if name@ == queue::LOGS@ { assert(names[6] == name@); }
                else if name@ == queue::PROGRESS@ { assert(names[7] == name@); }
                else { assert(names[8] == name@); }
            }
        } else {
            assert(!names.contains(name@)) by {
                if names.contains(name@) {
                    let k = choose|k: int| 0 <= k < names.len() && names[k] == name@;
                    assert(0 <= k < 9);
                }
            }
        }
    }
    found
}

/// Returns `true` if the queue is a worker queue (not coordinator-internal).
/// A name that holds a NUL character gives `false`.
pub fn is_worker_queue(name: &str) -> (worker: bool)
    ensures
        worker == worker_queue(name@),
{
    if !free_of_nul(name) {
        return false;
    }
    !is_coordinator_queue(name)
}

/// Returns `true` if the queue is a task queue (worker queue, non-exclusive).
/// A name that holds a NUL character gives `false`.
pub fn is_task_queue(name: &str) -> (task: bool)
    ensures
        task == task_queue(name@),
{
    if !free_of_nul(name) {
        return false;
    }
    !is_coordinator_queue(name) && !starts_with_text(name, queue::EXCLUSIVE_PREFIX)
}

/// Every queue that can reach the engine is either coordinator-internal or
/// a worker queue, never both.
pub proof fn law_queue_is_coordinator_or_worker(name: Seq<char>)
    requires
        c_passable(name),
    ensures
        worker_queue(name) == !coordinator_queue(name),
{
}

/// A name that holds a NUL character cannot reach the engine and belongs to
/// none of the three kinds of queue.
pub proof fn law_names_with_nul_are_no_queue(name: Seq<char>)
    requires
        !c_passable(name),
    ensures
        !coordinator_queue(name),
        !worker_queue(name),
        !task_queue(name),
{
}

/// The task queues are the worker queues that are not exclusive.
pub proof fn law_task_queues_are_shared_worker_queues(name: Seq<char>)
    ensures
        task_queue(name) == (worker_queue(name) && !is_exclusive_name(name)),
        task_queue(name) ==> worker_queue(name),
        task_queue(name) ==> !coordinator_queue(name),
{
}

/// Each well-known queue but the default one is coordinator-internal, and the
/// default queue is a task queue.
pub proof fn law_well_known_queues()
    ensures
        forall|i: int| 0 <= i < coordinator_queue_names().len()
            ==> coordinator_queue(#[trigger] coordinator_queue_names()[i]),
        task_queue(queue::DEFAULT@),
        worker_queue(queue::DEFAULT@),
        !coordinator_queue(queue::DEFAULT@),
        coordinator_queue(queue::PENDING@),
        coordinator_queue(queue::STARTED@),
        coordinator_queue(queue::COMPLETED@),
        coordinator_queue(queue::ERROR@),
        coordinator_queue(queue::HEARTBEAT@),
        coordinator_queue(queue::JOBS@),
        coordinator_queue(queue::LOGS@),
        coordinator_queue(queue::PROGRESS@),
        coordinator_queue(queue::REDELIVERIES@),
{
    reveal_strlit("pending");
    reveal_strlit("started");
    reveal_strlit("completed");
    reveal_strlit("error");
    reveal_strlit("default");
    reveal_strlit("heartbeat");
    reveal_strlit("jobs");
    reveal_strlit("logs");
    reveal_strlit("progress");
    reveal_strlit("redeliveries");
    reveal_strlit("x-");
    let names = coordinator_queue_names();
    assert forall|i: int| 0 <= i < names.len() implies coordinator_queue(#[trigger] names[i]) by {
        assert(names.contains(names[i]));
        assert(!names[i].contains('\0'));
    }
    assert(names[0] == queue::PENDING@ && names[1] == queue::STARTED@ && names[2] == queue::COMPLETED@);
    assert(names[3] == queue::ERROR@ && names[4] == queue::HEARTBEAT@ && names[5] == queue::JOBS@);
    assert(names[6] == queue::LOGS@ && names[7] == queue::PROGRESS@ && names[8] == queue::REDELIVERIES@);
    let d = queue::DEFAULT@;
    assert(!d.contains('\0'));
    assert(!names.contains(d)) by {
        if names.contains(d) {
            let k = choose|k: int| 0 <= k < names.len() && names[k] == d;
            assert(names[k][0] != d[0] || names[k].len() != d.len() || names[k][1] != d[1]);
        }
    }
    assert(!queue::EXCLUSIVE_PREFIX@.is_prefix_of(d)) by {
        assert(queue::EXCLUSIVE_PREFIX@[0] != d[0]);
    }
}

} // verus!
