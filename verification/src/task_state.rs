//! The states of a task.

use vstd::prelude::*;

verus! {

/// The task was created.
pub const CREATED: &'static str = "CREATED";

/// The task waits for a worker.
pub const PENDING: &'static str = "PENDING";

/// The task was sent to a worker.
pub const SCHEDULED: &'static str = "SCHEDULED";

/// The task runs.
pub const RUNNING: &'static str = "RUNNING";

/// The task was cancelled.
pub const CANCELLED: &'static str = "CANCELLED";

/// The task was stopped.
pub const STOPPED: &'static str = "STOPPED";

/// The task completed.
pub const COMPLETED: &'static str = "COMPLETED";

/// The task failed.
pub const FAILED: &'static str = "FAILED";

/// The task was skipped.
pub const SKIPPED: &'static str = "SKIPPED";

} // verus!
