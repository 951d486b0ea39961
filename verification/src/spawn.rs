//! The bubble factory: where a new bubble appears, how it moves, and when
//! one is due.

use vstd::prelude::*;

use crate::bubble::{Bubble, BubbleType};
use crate::constants::{BUBBLE_HOVER_OFFSET, BUBBLE_MOVEMENT_SPEED, BUBBLE_SPAWN_RADIUS};
use crate::geometry::{
    planar_distance_squared, Direction, Heading, Position, Velocity, DIRECTION_TOLERANCE,
};
use crate::models::BubbleModels;
use crate::random::{draw_bubble_type_index, BUBBLE_TYPE_COUNT};
use crate::timer::{BubbleSpawnTimer, TimerState};
use crate::units::{saturate, saturating_add, saturating_sub, scale, scaled, UNIT};

verus! {

/// Where a bubble appears: on the circle of the spawn radius around the
/// player, in the given direction, a little above the player.
pub open spec fn spawn_position(player: Position, heading: Heading) -> Position {
    Position {
        x: saturate(player.x + scaled(heading.cos, BUBBLE_SPAWN_RADIUS as int, UNIT as int)) as i64,
        y: saturate(player.y + BUBBLE_HOVER_OFFSET) as i64,
        z: saturate(player.z + scaled(heading.sin, BUBBLE_SPAWN_RADIUS as int, UNIT as int)) as i64,
    }
}

/// How a bubble that appears at `spawn` moves: in a straight line towards
/// the place where the player is now.
pub open spec fn spawn_velocity(player: Position, spawn: Position) -> Velocity {
    Velocity {
        x: scaled(saturate(player.x - spawn.x), BUBBLE_MOVEMENT_SPEED as int, UNIT as int) as i64,
        z: scaled(saturate(player.z - spawn.z), BUBBLE_MOVEMENT_SPEED as int, UNIT as int) as i64,
    }
}

/// The bubble of the given kind that appears around the player in the given
/// direction.
pub open spec fn spawned_bubble(player: Position, heading: Heading, bubble_type: BubbleType)
    -> Bubble {
    let position = spawn_position(player, heading);
    Bubble { position, velocity: spawn_velocity(player, position), bubble_type }
}

/// Whether a bubble of the given kind is due after `dt` more microseconds:
/// the session is still running, the timer fires and the kind's model has
/// been loaded.
pub open spec fn spawn_due(
    is_game_over: bool,
    timer: TimerState,
    models: BubbleModels,
    dt: u64,
    bubble_type: BubbleType,
) -> bool {
    !is_game_over && timer.fires(dt) && models.has(bubble_type)
}

/// The spawn timer after a tick of `dt` microseconds: it stands still once
/// the session is over.
pub open spec fn timer_after(is_game_over: bool, timer: TimerState, dt: u64) -> TimerState {
    if is_game_over {
        timer
    } else {
        timer.advance(dt)
    }
}

/// The bubbles after the spawn step for a drawn kind index.
pub open spec fn bubbles_after_spawn(
    bubbles: Seq<Bubble>,
    is_game_over: bool,
    timer: TimerState,
    models: BubbleModels,
    player: Position,
    dt: u64,
    type_index: u32,
    heading: Heading,
) -> Seq<Bubble> {
    let bubble_type = BubbleType::of_index(type_index);
    if spawn_due(is_game_over, timer, models, dt, bubble_type) {
        bubbles.push(spawned_bubble(player, heading, bubble_type))
    } else {
        bubbles
    }
}

/// Makes the bubble of the given kind that appears around the player in the
/// given direction.
pub fn spawn_bubble(player: &Position, direction: Direction, bubble_type: BubbleType) -> (r: Bubble)
    ensures
        r == spawned_bubble(*player, direction@, bubble_type),
{
    let offset_x = scale(direction.cos(), BUBBLE_SPAWN_RADIUS as u64, UNIT as u64);
    let offset_z = scale(direction.sin(), BUBBLE_SPAWN_RADIUS as u64, UNIT as u64);
    let position = Position {
        x: saturating_add(player.x, offset_x),
        y: saturating_add(player.y, BUBBLE_HOVER_OFFSET),
        z: saturating_add(player.z, offset_z),
    };
    let velocity = Velocity {
        x: scale(saturating_sub(player.x, position.x), BUBBLE_MOVEMENT_SPEED, UNIT as u64),
        z: scale(saturating_sub(player.z, position.z), BUBBLE_MOVEMENT_SPEED, UNIT as u64),
    };
    Bubble { position, velocity, bubble_type }
}

/// The spawn step of one tick, for a kind index that has been drawn.
///
/// While the session runs the timer advances by `dt`. If it fires and the
/// model of the drawn kind has been loaded, one bubble is added and
/// returned; if the model is missing, no bubble is made and the timer has
/// still started its next interval. Once the session is over nothing
/// changes.
pub fn bubble_spawns_with(
    timer: &mut BubbleSpawnTimer,
    models: &BubbleModels,
    player: &Position,
    is_game_over: bool,
    bubbles: &mut Vec<Bubble>,
    dt: u64,
    type_index: u32,
    direction: Direction,
) -> (spawned: Option<Bubble>)
    ensures
        final(timer)@ == timer_after(is_game_over, old(timer)@, dt),
        final(bubbles)@ == bubbles_after_spawn(
            old(bubbles)@,
            is_game_over,
            old(timer)@,
            *models,
            *player,
            dt,
            type_index,
            direction@,
        ),
        spawned == if spawn_due(
            is_game_over,
            old(timer)@,
            *models,
            dt,
            BubbleType::of_index(type_index),
        ) {
            Some(spawned_bubble(*player, direction@, BubbleType::of_index(type_index)))
        } else {
            None
        },
{
    if is_game_over {
        return None;
    }
    let fired = timer.tick(dt);
    let bubble_type = BubbleType::from_index(type_index);
    if !fired || !models.is_available(bubble_type) {
        return None;
    }
    let bubble = spawn_bubble(player, direction, bubble_type);
    bubbles.push(bubble);
    Some(bubble)
}

/// The spawn step of one tick: draws the kind of the next bubble and does
/// what [`bubble_spawns_with`] does for the drawn index.
pub fn bubble_spawns(
    timer: &mut BubbleSpawnTimer,
    models: &BubbleModels,
    player: &Position,
    is_game_over: bool,
    bubbles: &mut Vec<Bubble>,
    dt: u64,
    direction: Direction,
) -> (spawned: Option<Bubble>)
    ensures
        final(timer)@ == timer_after(is_game_over, old(timer)@, dt),
        exists|type_index: u32|
            type_index < BUBBLE_TYPE_COUNT && final(bubbles)@ == #[trigger] bubbles_after_spawn(
                old(bubbles)@,
                is_game_over,
                old(timer)@,
                *models,
                *player,
                dt,
                type_index,
                direction@,
            ) && spawned == if spawn_due(
                is_game_over,
                old(timer)@,
                *models,
                dt,
                BubbleType::of_index(type_index),
            ) {
                Some(spawned_bubble(*player, direction@, BubbleType::of_index(type_index)))
            } else {
                None
            },
{
    let type_index = draw_bubble_type_index();
    bubble_spawns_with(timer, models, player, is_game_over, bubbles, dt, type_index, direction)
}

/// Whether the spawn circle around the player lies within the coordinate
/// range: the player is at least seven units away from both ends of it on
/// `x` and on `z`.
pub open spec fn has_room(player: Position) -> bool {
    &&& i64::MIN + 7 * UNIT <= player.x <= i64::MAX - 7 * UNIT
    &&& i64::MIN + 7 * UNIT <= player.z <= i64::MAX - 7 * UNIT
}

/// A bubble appears on the circle of the spawn radius around the player,
/// whatever direction is drawn.
///
/// Seen from above, the squared distance between the bubble and the player
/// is the squared spawn radius times the squared length of the direction.
/// So a direction of length exactly one puts the bubble exactly on the
/// circle, and any direction puts it within the rounding of the direction.
pub proof fn lemma_spawn_on_circle(player: Position, heading: Heading)
    requires
        heading.is_direction(),
        has_room(player),
    ensures
        planar_distance_squared(spawn_position(player, heading), player) * (UNIT * UNIT)
            == BUBBLE_SPAWN_RADIUS * BUBBLE_SPAWN_RADIUS * heading.length_squared(),
        heading.is_unit() ==> planar_distance_squared(spawn_position(player, heading), player)
            == BUBBLE_SPAWN_RADIUS * BUBBLE_SPAWN_RADIUS,
        BUBBLE_SPAWN_RADIUS * BUBBLE_SPAWN_RADIUS - 36 * DIRECTION_TOLERANCE
            <= planar_distance_squared(spawn_position(player, heading), player)
            <= BUBBLE_SPAWN_RADIUS * BUBBLE_SPAWN_RADIUS + 36 * DIRECTION_TOLERANCE,
{
    let cos = heading.cos;
    let sin = heading.sin;
    lemma_heading_bounded(heading);
    let spawn = spawn_position(player, heading);
    assert(scaled(cos, BUBBLE_SPAWN_RADIUS as int, UNIT as int) == 6 * cos);
    assert(scaled(sin, BUBBLE_SPAWN_RADIUS as int, UNIT as int) == 6 * sin);
    assert(spawn.x - player.x == 6 * cos);
    assert(spawn.z - player.z == 6 * sin);
    let len = heading.length_squared();
    assert(planar_distance_squared(spawn, player) == 36 * len) by (nonlinear_arith)
        requires
            planar_distance_squared(spawn, player) == (6 * cos) * (6 * cos) + (6 * sin) * (6
                * sin),
            len == cos * cos + sin * sin,
    ;
    assert(36 * len * (UNIT * UNIT) == BUBBLE_SPAWN_RADIUS * BUBBLE_SPAWN_RADIUS * len)
        by (nonlinear_arith)
        requires
            UNIT == 1_000_000,
            BUBBLE_SPAWN_RADIUS == 6_000_000,
    ;
}

/// Neither component of a direction exceeds the unit by more than two
/// millionths.
pub proof fn lemma_heading_bounded(heading: Heading)
    requires
        heading.is_direction(),
    ensures
        -UNIT - 2 <= heading.cos <= UNIT + 2,
        -UNIT - 2 <= heading.sin <= UNIT + 2,
{
    let cos = heading.cos;
    let sin = heading.sin;
    assert(cos * cos >= 0 && sin * sin >= 0) by (nonlinear_arith);
    if cos > UNIT + 2 || cos < -UNIT - 2 {
        assert(cos * cos > 1_000_004_000_000) by (nonlinear_arith)
            requires
                cos >= 1_000_003 || cos <= -1_000_003,
        ;
    }
    if sin > UNIT + 2 || sin < -UNIT - 2 {
        assert(sin * sin > 1_000_004_000_000) by (nonlinear_arith)
            requires
                sin >= 1_000_003 || sin <= -1_000_003,
        ;
    }
}

} // verus!
