//! The oxygen supply and the end of the session.
//!
//! A session is alive until a tick finds the oxygen used up. That tick
//! reports the end once; from then on the supply no longer drains.

use vstd::prelude::*;

use crate::constants::{PLATEAU_RADIUS, PLAYER_OXYGEN_DECREASE_PER_SECOND};
use crate::geometry::Position;
use crate::units::MICROS_PER_SECOND;

verus! {

/// Notice that the session has just ended.
#[derive(Clone, Copy, Debug, PartialEq, Eq, Structural)]
pub struct GameOverEvent;

/// The oxygen used up in `dt` microseconds.
pub open spec fn drain(dt: u64) -> int {
    PLAYER_OXYGEN_DECREASE_PER_SECOND * dt / (MICROS_PER_SECOND as int)
}

/// The supply after draining for `dt` microseconds; it stops at zero.
pub open spec fn drained(oxygen: u64, dt: u64) -> u64 {
    if oxygen > drain(dt) {
        (oxygen - drain(dt)) as u64
    } else {
        0
    }
}

/// Whether a tick that starts with this state reports the end of the
/// session: the session is still alive and the oxygen is used up.
pub open spec fn ends_now(oxygen: u64, is_game_over: bool) -> bool {
    !is_game_over && oxygen == 0
}

/// The supply after the survival step of a tick of `dt` microseconds.
pub open spec fn oxygen_after_tick(oxygen: u64, is_game_over: bool, dt: u64) -> u64 {
    if is_game_over {
        oxygen
    } else {
        drained(oxygen, dt)
    }
}

/// Whether the player has left the plateau.
pub open spec fn outside_plateau(player: Position) -> bool {
    player.x * player.x + player.z * player.z > PLATEAU_RADIUS * PLATEAU_RADIUS
}

/// The supply after the plateau step of a tick of `dt` microseconds: while
/// the session is alive and the player is off the plateau, the supply drains
/// a second time.
pub open spec fn oxygen_after_plateau(
    oxygen: u64,
    is_game_over: bool,
    player: Position,
    dt: u64,
) -> u64 {
    if !is_game_over && outside_plateau(player) {
        drained(oxygen, dt)
    } else {
        oxygen
    }
}

/// Drains the supply for `dt` microseconds.
fn drain_oxygen(oxygen: u64, dt: u64) -> (r: u64)
    ensures
        r == drained(oxygen, dt),
{
    assert(PLAYER_OXYGEN_DECREASE_PER_SECOND * dt <= 1_000_000 * 0xffff_ffff_ffff_ffff)
        by (nonlinear_arith)
        requires
            dt <= 0xffff_ffff_ffff_ffff,
    ;
    let used: u128 = (PLAYER_OXYGEN_DECREASE_PER_SECOND as u128) * (dt as u128) / (
    MICROS_PER_SECOND as u128);
    if (oxygen as u128) > used {
        ((oxygen as u128) - used) as u64
    } else {
        0
    }
}

/// The survival step of one tick of `dt` microseconds.
///
/// Once the session is over nothing changes. A tick that finds a living
/// session with the oxygen used up ends it and reports that; this happens
/// once, since the session is over from then on. Any other tick drains the
/// supply.
pub fn reduce_oxygen_level(oxygen: &mut u64, is_game_over: &mut bool, dt: u64) -> (event: Option<
    GameOverEvent,
>)
    ensures
        event.is_some() == ends_now(*old(oxygen), *old(is_game_over)),
        *final(is_game_over) == (*old(is_game_over) || *old(oxygen) == 0),
        *final(oxygen) == oxygen_after_tick(*old(oxygen), *final(is_game_over), dt),
{
    if *is_game_over {
        return None;
    }
    if *oxygen == 0 {
        *is_game_over = true;
        return Some(GameOverEvent);
    }
    *oxygen = drain_oxygen(*oxygen, dt);
    None
}

/// Whether the player has left the plateau.
pub fn is_outside_plateau(player: &Position) -> (r: bool)
    ensures
        r == outside_plateau(*player),
{
    let x = player.x;
    let z = player.z;
    if x > PLATEAU_RADIUS || x < -PLATEAU_RADIUS || z > PLATEAU_RADIUS || z < -PLATEAU_RADIUS {
        proof {
            lemma_far_coordinate(x as int, z as int);
            lemma_far_coordinate(z as int, x as int);
        }
        return true;
    }
    assert(0 <= x * x <= 16_000_000_000_000) by (nonlinear_arith)
        requires
            -4_000_000 <= x <= 4_000_000,
    ;
    assert(0 <= z * z <= 16_000_000_000_000) by (nonlinear_arith)
        requires
            -4_000_000 <= z <= 4_000_000,
    ;
    x * x + z * z > PLATEAU_RADIUS * PLATEAU_RADIUS
}

/// A point with a coordinate beyond the plateau's radius is off the plateau.
proof fn lemma_far_coordinate(a: int, b: int)
    ensures
        a > PLATEAU_RADIUS || a < -PLATEAU_RADIUS ==> a * a + b * b > PLATEAU_RADIUS
            * PLATEAU_RADIUS,
{
    assert(b * b >= 0) by (nonlinear_arith);
    if a > PLATEAU_RADIUS || a < -PLATEAU_RADIUS {
        assert(a * a > 16_000_000_000_000) by (nonlinear_arith)
            requires
                a > 4_000_000 || a < -4_000_000,
        ;
    }
}

/// The plateau step of one tick of `dt` microseconds: while the session is
/// alive and the player is off the plateau, the supply drains a second time.
pub fn enforce_plateau_limits(player: &Position, oxygen: &mut u64, is_game_over: bool, dt: u64)
    ensures
        *final(oxygen) == oxygen_after_plateau(*old(oxygen), is_game_over, *player, dt),
{
    if !is_game_over && is_outside_plateau(player) {
        *oxygen = drain_oxygen(*oxygen, dt);
    }
}

} // verus!
