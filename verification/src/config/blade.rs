//! The energy blade.

use vstd::prelude::*;

verus! {

pub const NAME: &'static str = "KS-9 ARC BLADE";
pub const DAMAGE: i32 = 210;
pub const IMPACT: i32 = 46;
/// Vertical tolerance for a hit.
pub const VERTICAL: i32 = 5;
pub const COOLDOWN: i32 = 1;
pub const LUNGE: i32 = 14;

} // verus!
