//! The player's frame.

use vstd::prelude::*;

verus! {

pub const HEIGHT: i32 = 6;
/// Eye and anchor offset above the feet.
pub const CENTRE_Y: i32 = 3;
pub const GLIDE_SPEED: i32 = 22;
pub const GLIDE_ACCEL: i32 = 78;
pub const GLIDE_DECEL: i32 = 60;
/// Extra braking when input opposes the current velocity.
pub const TURN_BRAKE: i32 = 34;
pub const AIR_ACCEL: i32 = 34;
pub const AIR_MAX_SPEED: i32 = 26;
pub const FALL_MAX: i32 = 55;
pub const JUMP_SPEED: i32 = 15;
/// Sustained ascent while thrust is held in the air.
pub const FLIGHT_THRUST: i32 = 46;
pub const FLIGHT_MAX_UP: i32 = 20;
/// Descent is capped while thrusting, so flight feels controlled rather
/// than like falling with a light on.
pub const FLIGHT_FALL_CAP: i32 = -12;
pub const QUICK_BOOST_SPEED: i32 = 48;
pub const ASSAULT_SPEED: i32 = 40;
pub const ASSAULT_ACCEL: i32 = 90;
pub const ENERGY_MAX: i32 = 100;
pub const ENERGY_QUICK_BOOST: i32 = 20;
pub const ENERGY_FLIGHT_DRAIN: i32 = 18;
pub const ENERGY_ASSAULT_DRAIN: i32 = 24;
pub const ENERGY_REGEN_GROUND: i32 = 25;
pub const ENERGY_REGEN_AIR: i32 = 11;
/// Below this the mech cannot start a boost or flight.
pub const ENERGY_MIN_TO_BOOST: i32 = 8;
pub const HEALTH_MAX: i32 = 1000;
pub const STABILITY_MAX: i32 = 100;
pub const STABILITY_DECAY_RATE: i32 = 42;
pub const REPAIRS: u32 = 2;
pub const REPAIR_AMOUNT: i32 = 420;
pub const TORSO_LAG: i32 = 6;
pub const RESPAWN_INVULN: i32 = 2;

} // verus!
