//! A session of the game: the whole gameplay state, and the order in which
//! the systems work on it in a tick.

use vstd::prelude::*;

use crate::bubble::{Bubble, BubbleHitEvent, BubbleType};
use crate::collision::{check_collisions, hit_events, hit_places, survivors};
use crate::constants::PLAYER_OXYGEN_START_SUPPLY;
use crate::effects::{freeze_after_hits, handle_bubble_hit, oxygen_after_hits};
use crate::freeze::{run_bubble_freeze_timer, BubbleFreezeEffect};
use crate::geometry::{Direction, Heading, Position};
use crate::models::BubbleModels;
use crate::motion::{all_moved, move_bubbles};
use crate::player::{player_after, player_movement, MovementInput};
use crate::random::{draw_bubble_type_index, BUBBLE_TYPE_COUNT};
use crate::spawn::{bubble_spawns_with, bubbles_after_spawn, spawn_due, spawned_bubble, timer_after};
use crate::survival::{
    ends_now, enforce_plateau_limits, oxygen_after_plateau, oxygen_after_tick,
    reduce_oxygen_level, GameOverEvent,
};
use crate::timer::{BubbleSpawnTimer, TimerState};

verus! {

/// The gameplay state of a session.
#[derive(Clone, Debug)]
pub struct Session {
    /// Where the player is.
    pub player: Position,
    /// The oxygen supply.
    pub oxygen: u64,
    /// Whether the session has ended. Once set it stays set.
    pub is_game_over: bool,
    /// The freeze debuff.
    pub freeze: BubbleFreezeEffect,
    /// The timer that paces the bubbles.
    pub timer: BubbleSpawnTimer,
    /// The bubble kinds that can be shown.
    pub models: BubbleModels,
    /// The bubbles in the water, oldest first.
    pub bubbles: Vec<Bubble>,
    /// The hits that have not been resolved yet, oldest first.
    pub hits: Vec<BubbleHitEvent>,
}

/// The gameplay state of a session as a mathematical value.
pub ghost struct SessionState {
    pub player: Position,
    pub oxygen: u64,
    pub is_game_over: bool,
    pub freeze: BubbleFreezeEffect,
    pub timer: TimerState,
    pub models: BubbleModels,
    pub bubbles: Seq<Bubble>,
    pub hits: Seq<BubbleHitEvent>,
}

/// What comes from outside in one tick.
#[derive(Clone, Copy, Debug)]
pub struct TickInput {
    /// The time since the last tick, in microseconds.
    pub dt: u64,
    /// The direction keys held down.
    pub keys: MovementInput,
    /// The index drawn for the kind of the next bubble.
    pub type_index: u32,
    /// The direction drawn for the place of the next bubble.
    pub direction: Direction,
}

impl TickInput {
    /// The input of a tick in which `type_index` was drawn.
    pub open spec fn drawn(dt: u64, keys: MovementInput, type_index: u32, direction: Direction)
        -> TickInput {
        TickInput { dt, keys, type_index, direction }
    }
}

/// What the first half of a tick tells the presentation layer.
#[derive(Clone, Debug)]
pub struct FixedReport {
    /// The bubble that appeared, if one did.
    pub spawned: Option<Bubble>,
    /// The places that the bubbles removed by a hit had in the list, in
    /// rising order. Each stands for one hit sound.
    pub removed: Vec<usize>,
}

/// What a whole tick tells the presentation layer.
#[derive(Clone, Debug)]
pub struct TickReport {
    /// The bubble that appeared, if one did.
    pub spawned: Option<Bubble>,
    /// The places that the bubbles removed by a hit had in the list, in
    /// rising order. Each stands for one hit sound.
    pub removed: Vec<usize>,
    /// The notice that the session has just ended.
    pub game_over: Option<GameOverEvent>,
}

impl View for Session {
    type V = SessionState;

    open spec fn view(&self) -> SessionState {
        SessionState {
            player: self.player,
            oxygen: self.oxygen,
            is_game_over: self.is_game_over,
            freeze: self.freeze,
            timer: self.timer@,
            models: self.models,
            bubbles: self.bubbles@,
            hits: self.hits@,
        }
    }
}

impl SessionState {
    /// The state at the start of a session.
    pub open spec fn initial() -> SessionState {
        SessionState {
            player: Position { x: 0, y: 0, z: 0 },
            oxygen: PLAYER_OXYGEN_START_SUPPLY,
            is_game_over: false,
            freeze: BubbleFreezeEffect { time_remaining: 0 },
            timer: TimerState {
                interval: crate::constants::BUBBLE_SPAWN_INTERVAL as nat,
                elapsed: 0,
            },
            models: BubbleModels::none(),
            bubbles: Seq::empty(),
            hits: Seq::empty(),
        }
    }

    /// Whether the spawn step makes a bubble.
    pub open spec fn spawns(self, dt: u64, type_index: u32) -> bool {
        spawn_due(self.is_game_over, self.timer, self.models, dt, BubbleType::of_index(type_index))
    }

    /// The spawn step: the timer advances and, if a bubble is due, it
    /// appears around the player.
    pub open spec fn spawn_step(self, dt: u64, type_index: u32, heading: Heading) -> SessionState {
        SessionState {
            timer: timer_after(self.is_game_over, self.timer, dt),
            bubbles: bubbles_after_spawn(
                self.bubbles,
                self.is_game_over,
                self.timer,
                self.models,
                self.player,
                dt,
                type_index,
                heading,
            ),
            ..self
        }
    }

    /// The motion step: every bubble drifts.
    pub open spec fn drift_step(self, dt: u64) -> SessionState {
        SessionState { bubbles: all_moved(self.bubbles, dt), ..self }
    }

    /// The input step: the player moves unless frozen or the session is
    /// over.
    pub open spec fn input_step(self, keys: MovementInput, dt: u64) -> SessionState {
        SessionState {
            player: player_after(self.player, keys, dt, self.is_game_over, self.freeze),
            ..self
        }
    }

    /// The collision step: the bubbles that touch the player leave the
    /// water and their hits join the queue.
    pub open spec fn collision_step(self) -> SessionState {
        SessionState {
            bubbles: survivors(self.bubbles, self.player),
            hits: self.hits + hit_events(self.bubbles, self.player),
            ..self
        }
    }

    /// The freeze step: the debuff runs down.
    pub open spec fn freeze_step(self, dt: u64) -> SessionState {
        SessionState { freeze: self.freeze.after(dt), ..self }
    }

    /// The effect step: the queued hits are resolved and the queue is
    /// emptied.
    pub open spec fn effect_step(self) -> SessionState {
        SessionState {
            oxygen: oxygen_after_hits(self.oxygen, self.hits),
            freeze: freeze_after_hits(self.freeze, self.hits),
            hits: Seq::empty(),
            ..self
        }
    }

    /// Whether the survival step ends the session.
    pub open spec fn ends(self) -> bool {
        ends_now(self.oxygen, self.is_game_over)
    }

    /// The survival step: a living session with no oxygen left ends; any
    /// other living session uses up oxygen.
    pub open spec fn survival_step(self, dt: u64) -> SessionState {
        let over = self.is_game_over || self.oxygen == 0;
        SessionState {
            is_game_over: over,
            oxygen: oxygen_after_tick(self.oxygen, over, dt),
            ..self
        }
    }

    /// The plateau step: off the plateau a living session uses up oxygen a
    /// second time.
    pub open spec fn plateau_step(self, dt: u64) -> SessionState {
        SessionState {
            oxygen: oxygen_after_plateau(self.oxygen, self.is_game_over, self.player, dt),
            ..self
        }
    }

    /// The first half of a tick: spawn, drift, input, collisions.
    pub open spec fn fixed_update(self, input: TickInput) -> SessionState {
        self.spawn_step(input.dt, input.type_index, input.direction@).drift_step(
            input.dt,
        ).input_step(input.keys, input.dt).collision_step()
    }

    /// The second half of a tick: freeze countdown, effects, survival,
    /// plateau.
    pub open spec fn update(self, dt: u64) -> SessionState {
        self.freeze_step(dt).effect_step().survival_step(dt).plateau_step(dt)
    }

    /// Whether the second half of a tick ends the session.
    pub open spec fn update_ends(self, dt: u64) -> bool {
        self.freeze_step(dt).effect_step().ends()
    }

    /// A whole tick.
    pub open spec fn tick(self, input: TickInput) -> SessionState {
        self.fixed_update(input).update(input.dt)
    }

    /// Whether a whole tick ends the session.
    pub open spec fn tick_ends(self, input: TickInput) -> bool {
        self.fixed_update(input).update_ends(input.dt)
    }

    /// The bubble that a tick makes, if it makes one.
    pub open spec fn tick_spawned(self, input: TickInput) -> Option<Bubble> {
        if self.spawns(input.dt, input.type_index) {
            Some(
                spawned_bubble(
                    self.player,
                    input.direction@,
                    BubbleType::of_index(input.type_index),
                ),
            )
        } else {
            None
        }
    }

    /// The places, in the list as it is after the drift, of the bubbles that
    /// a tick removes.
    pub open spec fn tick_removed(self, input: TickInput) -> Seq<usize> {
        let before = self.spawn_step(input.dt, input.type_index, input.direction@).drift_step(
            input.dt,
        ).input_step(input.keys, input.dt);
        hit_places(before.bubbles, before.player)
    }
}

impl Session {
    /// A session at its start: the player at the origin with the full
    /// oxygen supply, no bubbles, no models loaded.
    pub fn new() -> (r: Session)
        ensures
            r@ == SessionState::initial(),
    {
        Session {
            player: Position { x: 0, y: 0, z: 0 },
            oxygen: PLAYER_OXYGEN_START_SUPPLY,
            is_game_over: false,
            freeze: BubbleFreezeEffect::new(),
            timer: BubbleSpawnTimer::new(),
            models: BubbleModels::new(),
            bubbles: Vec::new(),
            hits: Vec::new(),
        }
    }

    /// The first half of a tick, for a kind index that has been drawn: the
    /// spawn step, the drift of the bubbles, the player's movement and the
    /// collisions, in this order. Returns the bubble that appeared and the
    /// places of the bubbles that were hit.
    pub fn fixed_update_with(&mut self, input: TickInput) -> (report: FixedReport)
        ensures
            final(self)@ == old(self)@.fixed_update(input),
            report.spawned == old(self)@.tick_spawned(input),
            report.removed@ == old(self)@.tick_removed(input),
    {
        let spawned = bubble_spawns_with(
            &mut self.timer,
            &self.models,
            &self.player,
            self.is_game_over,
            &mut self.bubbles,
            input.dt,
            input.type_index,
            input.direction,
        );
        move_bubbles(&mut self.bubbles, input.dt);
        player_movement(&mut self.player, input.keys, input.dt, self.is_game_over, &self.freeze);
        let removed = check_collisions(&self.player, &mut self.bubbles, &mut self.hits);
        FixedReport { spawned, removed }
    }

    /// The first half of a tick: draws the kind of the next bubble and does
    /// what [`Session::fixed_update_with`] does for the drawn index.
    pub fn fixed_update(&mut self, dt: u64, keys: MovementInput, direction: Direction) -> (report:
        FixedReport)
        ensures
            exists|type_index: u32|
                #![trigger TickInput::drawn(dt, keys, type_index, direction)]
                {
                    let input = TickInput::drawn(dt, keys, type_index, direction);
                    &&& type_index < BUBBLE_TYPE_COUNT
                    &&& final(self)@ == old(self)@.fixed_update(input)
                    &&& report.spawned == old(self)@.tick_spawned(input)
                    &&& report.removed@ == old(self)@.tick_removed(input)
                },
    {
        let type_index = draw_bubble_type_index();
        let input = TickInput { dt, keys, type_index, direction };
        assert(input == TickInput::drawn(dt, keys, type_index, direction));
        self.fixed_update_with(input)
    }

    /// The second half of a tick: the freeze countdown, the effects of the
    /// queued hits, the oxygen drain and the end of the session, and the
    /// extra drain off the plateau, in this order. Returns the notice that
    /// the session has just ended.
    pub fn update(&mut self, dt: u64) -> (event: Option<GameOverEvent>)
        ensures
            final(self)@ == old(self)@.update(dt),
            event.is_some() == old(self)@.update_ends(dt),
    {
        run_bubble_freeze_timer(&mut self.freeze, dt);
        handle_bubble_hit(&mut self.hits, &mut self.oxygen, &mut self.freeze);
        let event = reduce_oxygen_level(&mut self.oxygen, &mut self.is_game_over, dt);
        enforce_plateau_limits(&self.player, &mut self.oxygen, self.is_game_over, dt);
        event
    }

    /// A whole tick, for a kind index that has been drawn.
    pub fn tick_with(&mut self, input: TickInput) -> (report: TickReport)
        ensures
            final(self)@ == old(self)@.tick(input),
            report.spawned == old(self)@.tick_spawned(input),
            report.removed@ == old(self)@.tick_removed(input),
            report.game_over.is_some() == old(self)@.tick_ends(input),
    {
        let first = self.fixed_update_with(input);
        let game_over = self.update(input.dt);
        TickReport { spawned: first.spawned, removed: first.removed, game_over }
    }

    /// A whole tick: draws the kind of the next bubble and does what
    /// [`Session::tick_with`] does for the drawn index.
    pub fn tick(&mut self, dt: u64, keys: MovementInput, direction: Direction) -> (report:
        TickReport)
        ensures
            exists|type_index: u32|
                #![trigger TickInput::drawn(dt, keys, type_index, direction)]
                {
                    let input = TickInput::drawn(dt, keys, type_index, direction);
                    &&& type_index < BUBBLE_TYPE_COUNT
                    &&& final(self)@ == old(self)@.tick(input)
                    &&& report.spawned == old(self)@.tick_spawned(input)
                    &&& report.removed@ == old(self)@.tick_removed(input)
                    &&& report.game_over.is_some() == old(self)@.tick_ends(input)
                },
    {
        let type_index = draw_bubble_type_index();
        let input = TickInput { dt, keys, type_index, direction };
        assert(input == TickInput::drawn(dt, keys, type_index, direction));
        self.tick_with(input)
    }
}

} // verus!
