//! The S-2 Skirmisher: fast, strafing, fires in bursts.

use vstd::prelude::*;

verus! {

pub const NAME: &'static str = "S-2 SKIRMISHER";
pub const HEALTH: i32 = 240;
pub const STABILITY: i32 = 60;
pub const SPEED: i32 = 17;
pub const STRAFE_SPEED: i32 = 13;
pub const ACCEL: i32 = 42;
pub const PREFERRED_RANGE: i32 = 34;
pub const BURST_COUNT: u32 = 3;
pub const DAMAGE: i32 = 15;
pub const PROJECTILE_SPEED: i32 = 105;
pub const SIGHT: i32 = 130;
pub const REPAIR_DROP: u32 = 0;

} // verus!
