//! The ASHFRAME PATRIARCH.

use vstd::prelude::*;

verus! {

pub const NAME: &'static str = "ASHFRAME PATRIARCH";
pub const HEALTH: i32 = 4200;
pub const STABILITY: i32 = 260;
pub const SPEED: i32 = 13;
pub const ACCEL: i32 = 26;
pub const BARRAGE_COUNT: u32 = 10;
pub const BARRAGE_DAMAGE: i32 = 26;
pub const BARRAGE_SPEED: i32 = 120;
pub const DASH_SPEED: i32 = 44;
pub const DASH_COOLDOWN: i32 = 6;
pub const SLAM_RANGE: i32 = 16;
pub const SLAM_DAMAGE: i32 = 160;
pub const SLAM_RADIUS: i32 = 20;
pub const SLAM_COOLDOWN: i32 = 5;
pub const BLADE_DAMAGE: i32 = 120;
pub const BLADE_RANGE: i32 = 22;
pub const BLADE_ARC: i32 = 1;
pub const SIGHT: i32 = 200;

} // verus!
