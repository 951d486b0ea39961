//! The player's movement from the four direction keys.

use vstd::prelude::*;

use crate::constants::PLAYER_MOVEMENT_SPEED;
use crate::freeze::BubbleFreezeEffect;
use crate::geometry::Position;
use crate::units::{saturate, saturating_add, saturating_sub, scale, scaled, MICROS_PER_SECOND, UNIT};

verus! {

/// The share of a step that goes to each axis when the player moves along
/// both: one over the square root of two.
pub const DIAGONAL_SHARE: u64 = 707_107;

/// Which of the four direction keys are held down. `up` moves towards
/// smaller `z`, `down` towards larger `z`, `left` towards smaller `x` and
/// `right` towards larger `x`.
#[derive(Clone, Copy, Debug, PartialEq, Eq, Structural)]
pub struct MovementInput {
    pub up: bool,
    pub down: bool,
    pub left: bool,
    pub right: bool,
}

impl MovementInput {
    /// The direction asked for along `x`: -1, 0 or 1. Opposite keys cancel.
    pub open spec fn along_x(self) -> int {
        (if self.right { 1int } else { 0int }) - (if self.left { 1int } else { 0int })
    }

    /// The direction asked for along `z`: -1, 0 or 1. Opposite keys cancel.
    pub open spec fn along_z(self) -> int {
        (if self.down { 1int } else { 0int }) - (if self.up { 1int } else { 0int })
    }
}

/// Whether the player's input is applied: not after the session is over and
/// not while frozen.
pub open spec fn can_move(is_game_over: bool, freeze: BubbleFreezeEffect) -> bool {
    !is_game_over && !freeze.is_frozen()
}

/// The distance the player covers in `dt` microseconds.
pub open spec fn step_length(dt: u64) -> int {
    scaled(PLAYER_MOVEMENT_SPEED as int, dt as int, MICROS_PER_SECOND as int)
}

/// The distance covered along one axis in `dt` microseconds: the whole step
/// when the player moves along this axis alone, its diagonal share when the
/// player moves along both.
pub open spec fn axis_step(dt: u64, diagonal: bool) -> int {
    if diagonal {
        scaled(step_length(dt), DIAGONAL_SHARE as int, UNIT as int)
    } else {
        step_length(dt)
    }
}

/// A coordinate after a step in the direction `along` (-1, 0 or 1).
pub open spec fn stepped(coordinate: i64, along: int, step: int) -> i64 {
    saturate(coordinate + along * step) as i64
}

/// The player's position after a tick of `dt` microseconds with the given
/// keys held down.
pub open spec fn player_after(
    player: Position,
    input: MovementInput,
    dt: u64,
    is_game_over: bool,
    freeze: BubbleFreezeEffect,
) -> Position {
    if can_move(is_game_over, freeze) {
        let diagonal = input.along_x() != 0 && input.along_z() != 0;
        Position {
            x: stepped(player.x, input.along_x(), axis_step(dt, diagonal)),
            y: player.y,
            z: stepped(player.z, input.along_z(), axis_step(dt, diagonal)),
        }
    } else {
        player
    }
}

/// Moves a coordinate by `step` in the direction given by the two keys of
/// its axis.
fn step_coordinate(coordinate: i64, negative: bool, positive: bool, step: i64) -> (r: i64)
    ensures
        r == stepped(
            coordinate,
            (if positive { 1int } else { 0int }) - (if negative { 1int } else { 0int }),
            step as int,
        ),
{
    if positive && !negative {
        assert(1int * step == step) by (nonlinear_arith);
        saturating_add(coordinate, step)
    } else if negative && !positive {
        assert((-1int) * step == -step) by (nonlinear_arith);
        saturating_sub(coordinate, step)
    } else {
        assert(0int * step == 0) by (nonlinear_arith);
        coordinate
    }
}

/// Moves the player for a tick of `dt` microseconds with the given keys
/// held down. The input is ignored after the session is over and while the
/// player is frozen.
pub fn player_movement(
    player: &mut Position,
    input: MovementInput,
    dt: u64,
    is_game_over: bool,
    freeze: &BubbleFreezeEffect,
)
    ensures
        *final(player) == player_after(*old(player), input, dt, is_game_over, *freeze),
{
    if is_game_over || freeze.time_remaining > 0 {
        return ;
    }
    let moves_x = input.left != input.right;
    let moves_z = input.up != input.down;
    let whole = scale(PLAYER_MOVEMENT_SPEED, dt, MICROS_PER_SECOND);
    let step = if moves_x && moves_z {
        scale(whole, DIAGONAL_SHARE, UNIT as u64)
    } else {
        whole
    };
    player.x = step_coordinate(player.x, input.left, input.right, step);
    player.z = step_coordinate(player.z, input.up, input.down, step);
}

} // verus!
