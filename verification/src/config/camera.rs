//! The chase camera.

use vstd::prelude::*;

verus! {

pub const FOV: i32 = 68;
/// FOV added at full assault boost.
pub const FOV_BOOST: i32 = 9;
/// Follow rates in 1/seconds. Higher is snappier.
pub const FOLLOW_RATE: i32 = 14;
pub const AIM_FOLLOW_RATE: i32 = 26;

} // verus!
