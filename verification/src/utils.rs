use vstd::prelude::*;

verus! {

/// Lowest frequency shown on the plan, in MHz.
pub const MIN_FREQ: u32 = 20;

/// Highest frequency shown on the plan, in MHz.
pub const MAX_FREQ: u32 = 6000;

/// Length of the time axis, in ms.
pub const MAX_TIME: u32 = 1000;

} // verus!
