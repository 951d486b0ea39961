//! The fixed parameters of the game, in the fixed-point scale of
//! [`crate::units`]: lengths and oxygen in millionths of a unit, durations in
//! microseconds, speeds in millionths of a unit per second.

use vstd::prelude::*;

verus! {

/// Distance the player swims per second.
pub const PLAYER_MOVEMENT_SPEED: i64 = 7_000_000;

/// Radius of the player's bounding sphere.
pub const PLAYER_RADIUS: u32 = 350_000;

/// Oxygen the player starts a session with.
pub const PLAYER_OXYGEN_START_SUPPLY: u64 = 10_000_000;

/// Oxygen the player uses up per second while alive.
pub const PLAYER_OXYGEN_DECREASE_PER_SECOND: u64 = 1_000_000;

/// Radius of the plateau; outside it the oxygen drains twice as fast.
pub const PLATEAU_RADIUS: i64 = 4_000_000;

/// Fewest plants scattered on the plateau.
pub const PLATEAU_MINIMUM_PLANTS: u32 = 24;

/// One more than the most plants scattered on the plateau.
pub const PLATEAU_MAXIMUM_PLANTS: u32 = 64;

/// Radius of a bubble's bounding sphere.
pub const BUBBLE_RADIUS: u32 = 600_000;

/// Radius of the circle around the player on which bubbles appear.
pub const BUBBLE_SPAWN_RADIUS: i64 = 6_000_000;

/// Height above the player at which bubbles float.
pub const BUBBLE_HOVER_OFFSET: i64 = 250_000;

/// Time between two bubbles.
pub const BUBBLE_SPAWN_INTERVAL: u64 = 400_000;

/// Fraction of the spawn offset that a bubble covers per second.
pub const BUBBLE_MOVEMENT_SPEED: u64 = 300_000;

/// Oxygen gained from a regular bubble; a freeze bubble gives half of it.
pub const BUBBLE_EFFECT_OXYGEN_INCREASE: i64 = 2_000_000;

/// Oxygen lost to a dirt bubble.
pub const BUBBLE_EFFECT_OXYGEN_DECREASE_SMALL: i64 = 1_000_000;

/// Oxygen lost to a blood bubble.
pub const BUBBLE_EFFECT_OXYGEN_DECREASE_BIG: i64 = 4_000_000;

/// Time for which a freeze bubble blocks the player's movement.
pub const BUBBLE_EFFECT_FREEZE_DURATION: u64 = 800_000;

} // verus!
