//! The M-8 Siege Unit: slow, and telegraphs before it lands a salvo.

use vstd::prelude::*;

verus! {

pub const NAME: &'static str = "M-8 SIEGE UNIT";
pub const HEALTH: i32 = 420;
pub const STABILITY: i32 = 95;
pub const ACCEL: i32 = 18;
pub const PREFERRED_RANGE: i32 = 70;
pub const SALVO_COUNT: u32 = 5;
pub const DAMAGE: i32 = 30;
pub const SPLASH_RADIUS: i32 = 7;
pub const PROJECTILE_SPEED: i32 = 62;
pub const SIGHT: i32 = 170;
pub const REPAIR_DROP: u32 = 0;

} // verus!
