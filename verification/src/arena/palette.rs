//! The yard's colours, as `0xRRGGBB`, for the renderer to match.
//!
//! Kept with the simulation because they are part of the arena's identity
//! rather than of any renderer's.

use vstd::prelude::*;

verus! {

pub const CONCRETE: u32 = 0x007c_786e;
pub const STEEL: u32 = 0x0047_4e56;
pub const STEEL_DARK: u32 = 0x002b_3036;
pub const PLATING: u32 = 0x009a_a1a8;
pub const RUST: u32 = 0x006d_4b38;
pub const HAZARD: u32 = 0x00c9_971f;
pub const GLASS: u32 = 0x0024_313a;
pub const SKY: u32 = 0x0093_a6b8;

} // verus!
