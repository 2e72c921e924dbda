//! The arena.

use vstd::prelude::*;

verus! {

/// Half-extent of the floor. The playable area is roughly 300 × 300 metres.
pub const HALF: i32 = 150;
/// Fall below this and the mech is recovered to the nearest safe pad.
pub const KILL_PLANE: i32 = -30;
pub const GRAVITY: i32 = -26;
/// Fixed arena floor height.
pub const FLOOR_Y: i32 = 0;
/// How tall a ledge a hostile will walk over rather than into.
///
/// Shared between the collision resolver, which ignores anything below it,
/// and the ground probe, which is what actually places the unit on top.
/// They have to agree: the resolver deliberately declines to block a low
/// ledge, so if the probe cannot see it the unit walks through it instead.
pub const ENEMY_STEP_HEIGHT: i32 = 1;

} // verus!
