//! The states of a job.

use vstd::prelude::*;

verus! {

/// The job waits to be scheduled.
pub const PENDING: &'static str = "PENDING";

/// The job is scheduled.
pub const SCHEDULED: &'static str = "SCHEDULED";

/// The job runs.
pub const RUNNING: &'static str = "RUNNING";

/// The job was cancelled.
pub const CANCELLED: &'static str = "CANCELLED";

/// The job completed.
pub const COMPLETED: &'static str = "COMPLETED";

/// The job failed.
pub const FAILED: &'static str = "FAILED";

/// The job is to be restarted.
pub const RESTART: &'static str = "RESTART";

} // verus!
