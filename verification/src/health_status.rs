//! Health check statuses.

use vstd::prelude::*;

verus! {

/// The service is up.
pub const UP: &'static str = "UP";

/// The service is down.
pub const DOWN: &'static str = "DOWN";

} // verus!
