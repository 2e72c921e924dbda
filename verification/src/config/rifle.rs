//! The autocannon.

use vstd::prelude::*;

verus! {

pub const NAME: &'static str = "VK-40 AUTOCANNON";
pub const DAMAGE: i32 = 26;
pub const IMPACT: i32 = 6;
pub const MAGAZINE: u32 = 42;
/// Muzzle velocity. Projectiles are swept, so this cannot tunnel.
pub const SPEED: i32 = 300;
pub const RANGE: i32 = 420;
pub const TRACER_EVERY: u32 = 1;

} // verus!
