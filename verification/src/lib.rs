//! Combat core for a twin-stick bullet-hell game.
//!
//! Attackers cycle through timed attack patterns that emit volleys of
//! projectiles; a collision-resolution stage turns contact events between
//! the player, attackers, projectiles and obstacles into damage, despawn,
//! bounce and ammo-restoration effects; a lifecycle sweep expires
//! projectiles whose timers ran out.
//!
//! All simulated time is measured in integer ticks and all directions are
//! exact rational fractions of a full turn, so every rule of the combat
//! core is stated and proved without floating point. Converting directions
//! to unit vectors (and target offsets to aim angles) is the caller's
//! concern.

pub mod bosses;
pub mod collision;
pub mod enemies;
pub mod level;
pub mod pattern;
pub mod player;
pub mod projectiles;
pub mod rng;
pub mod timer;
pub mod world;
