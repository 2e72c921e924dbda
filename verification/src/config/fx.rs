//! Presentation limits.

use vstd::prelude::*;

verus! {

pub const MAX_PARTICLES: usize = 900;
pub const MAX_DEBRIS: usize = 90;
pub const MAX_DECALS: usize = 48;
/// Hard cap on simultaneously scheduled audio voices. Sounds past it are
/// dropped rather than mixed, because distorting is worse than quiet.
pub const MAX_VOICES: usize = 28;

} // verus!
