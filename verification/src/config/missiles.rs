//! The missile pod.

use vstd::prelude::*;

verus! {

pub const NAME: &'static str = "HR-6 MISSILE POD";
pub const COUNT: u32 = 6;
pub const DAMAGE: i32 = 46;
pub const IMPACT: i32 = 16;
pub const SPLASH_DAMAGE: i32 = 22;
pub const SPEED: i32 = 52;
pub const LIFE: i32 = 6;
/// A lock must be held before the pod will fire.
pub const LOCK_REQUIRED: bool = true;

} // verus!
