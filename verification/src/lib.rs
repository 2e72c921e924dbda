//! The Ashframe simulation's discrete core.
//!
//! Sides, archetypes, weapons and mission phases; the deterministic generator;
//! the mission's phase machine; the player's weapons, movement modes and
//! energy gauge; each enemy archetype's tactics; the rules of a hit; the enemy
//! roster's bookkeeping; the projectile pool's slot allocation; the target
//! lock and its cycle. Everything here is stated over integers, booleans and
//! enumerations and proved against its contract.

pub mod arena;
pub mod combat;
pub mod config;
pub mod enemies;
pub mod events;
pub mod math;
pub mod mission;
pub mod player;
pub mod projectiles;
pub mod targeting;
pub mod text;
pub mod types;
