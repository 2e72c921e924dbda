//! Timing. The simulation runs at a fixed rate; rendering never drives it.

use vstd::prelude::*;

verus! {

/// Steps per second.
pub const HZ: u32 = 120;
/// Hard cap on steps per rendered frame, for the same reason.
pub const MAX_STEPS: u32 = 24;

} // verus!
