//! Well-known broker queue names.

use vstd::prelude::*;

verus! {

/// Queue into which the API inserts new tasks.
pub const PENDING: &'static str = "pending";

/// Queue on which workers report that a task began processing.
pub const STARTED: &'static str = "started";

/// Queue on which workers report tasks that completed successfully.
pub const COMPLETED: &'static str = "completed";

/// Queue on which workers report tasks that failed.
pub const ERROR: &'static str = "error";

/// The default queue for tasks.
pub const DEFAULT: &'static str = "default";

/// Queue on which workers periodically report that they are alive.
pub const HEARTBEAT: &'static str = "heartbeat";

/// Queue on which the coordinator creates jobs and changes their state.
pub const JOBS: &'static str = "jobs";

/// Queue on which workers send task logs.
pub const LOGS: &'static str = "logs";

/// Queue on which workers send task progress.
pub const PROGRESS: &'static str = "progress";

/// Queue on which the coordinator redelivers tasks.
pub const REDELIVERIES: &'static str = "redeliveries";

/// Prefix of the queues that are exclusive to one worker.
pub const EXCLUSIVE_PREFIX: &'static str = "x-";

} // verus!
