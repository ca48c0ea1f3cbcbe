//! Scheduled job states.

use vstd::prelude::*;

verus! {

/// The schedule starts jobs.
pub const ACTIVE: &'static str = "ACTIVE";

/// The schedule is paused.
pub const PAUSED: &'static str = "PAUSED";

} // verus!
