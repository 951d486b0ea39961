//! What holds of a session over any sequence of steps.
//!
//! The engine runs the two halves of a tick on clocks of their own: between
//! two second halves there may be several first halves, or none. So the
//! history of a session is a sequence of steps, each the first or the second
//! half of a tick, in any order.

use vstd::prelude::*;

use crate::collision::{is_missed, lemma_no_second_hit};
use crate::effects::{
    any_restores, lemma_no_gain_without_restoring_hit, lemma_no_hit_no_effect, oxygen_after_hits,
};
use crate::session::{SessionState, TickInput};

verus! {

/// One step in the history of a session.
pub ghost enum Step {
    /// The first half of a tick: spawn, drift, input, collisions.
    FixedUpdate(TickInput),
    /// The second half of a tick after the given time: freeze countdown,
    /// effects, survival, plateau.
    Update(u64),
}

impl Step {
    /// The state after this step.
    pub open spec fn apply(self, state: SessionState) -> SessionState {
        match self {
            Step::FixedUpdate(input) => state.fixed_update(input),
            Step::Update(dt) => state.update(dt),
        }
    }

    /// Whether this step reports the end of the session.
    pub open spec fn ends(self, state: SessionState) -> bool {
        match self {
            Step::FixedUpdate(_) => false,
            Step::Update(dt) => state.update_ends(dt),
        }
    }

    /// Whether this step resolves a hit that adds oxygen.
    pub open spec fn restores(self, state: SessionState) -> bool {
        match self {
            Step::FixedUpdate(_) => false,
            Step::Update(_) => any_restores(state.hits),
        }
    }
}

/// The state after the given steps, one after the other.
pub open spec fn run(start: SessionState, steps: Seq<Step>) -> SessionState
    decreases steps.len(),
{
    if steps.len() == 0 {
        start
    } else {
        steps.last().apply(run(start, steps.drop_last()))
    }
}

/// How many of the given steps report the end of the session.
pub open spec fn game_over_events(start: SessionState, steps: Seq<Step>) -> nat
    decreases steps.len(),
{
    if steps.len() == 0 {
        0
    } else {
        let earlier = game_over_events(start, steps.drop_last());
        if steps.last().ends(run(start, steps.drop_last())) {
            earlier + 1
        } else {
            earlier
        }
    }
}

/// The two halves of a tick, as steps.
pub open spec fn tick_steps(input: TickInput) -> Seq<Step> {
    seq![Step::FixedUpdate(input), Step::Update(input.dt)]
}

/// A whole tick is its first half followed by its second half.
pub proof fn lemma_tick_is_two_steps(state: SessionState, input: TickInput)
    ensures
        run(state, tick_steps(input)) == state.tick(input),
        game_over_events(state, tick_steps(input)) == if state.tick_ends(input) {
            1nat
        } else {
            0nat
        },
{
    let steps = tick_steps(input);
    let first = steps.drop_last();
    assert(first =~= seq![Step::FixedUpdate(input)]);
    assert(first.drop_last() =~= Seq::<Step>::empty());
    assert(run(state, first.drop_last()) == state);
    assert(run(state, first) == state.fixed_update(input));
    assert(game_over_events(state, first.drop_last()) == 0);
    assert(game_over_events(state, first) == 0);
}

/// A step does not raise the oxygen unless it resolves a hit that adds
/// oxygen.
pub proof fn lemma_oxygen_falls_in_step(state: SessionState, step: Step)
    requires
        !step.restores(state),
    ensures
        step.apply(state).oxygen <= state.oxygen,
{
    match step {
        Step::FixedUpdate(_) => {},
        Step::Update(_) => {
            lemma_no_gain_without_restoring_hit(state.oxygen, state.hits);
        },
    }
}

/// A tick does not raise the oxygen unless the player touches, or has
/// touched and not yet felt, a bubble that adds oxygen.
pub proof fn lemma_oxygen_falls_in_tick(state: SessionState, input: TickInput)
    requires
        !any_restores(state.fixed_update(input).hits),
    ensures
        state.tick(input).oxygen <= state.oxygen,
{
    lemma_oxygen_falls_in_step(state.fixed_update(input), Step::Update(input.dt));
}

/// Over any sequence of steps, the oxygen after a step is no higher than
/// before it, unless the step resolves a hit that adds oxygen.
pub proof fn lemma_oxygen_never_rises_unprompted(start: SessionState, steps: Seq<Step>, i: int)
    requires
        0 <= i < steps.len(),
        !steps[i].restores(run(start, steps.take(i))),
    ensures
        run(start, steps.take(i + 1)).oxygen <= run(start, steps.take(i)).oxygen,
{
    assert(steps.take(i + 1).drop_last() =~= steps.take(i));
    lemma_oxygen_falls_in_step(run(start, steps.take(i)), steps[i]);
}

/// A step ends the session only if it was alive, and leaves it over; a
/// session that is over stays over.
pub proof fn lemma_end_is_final(state: SessionState, step: Step)
    ensures
        step.ends(state) ==> !state.is_game_over && step.apply(state).is_game_over,
        state.is_game_over ==> step.apply(state).is_game_over,
        step.apply(state).is_game_over ==> state.is_game_over || step.ends(state),
{
}

/// Over any sequence of steps the end of the session is reported at most
/// once: exactly once if the session was alive at the start and is over at
/// the end, and never otherwise. However long the oxygen stays used up
/// afterwards, no later step reports the end again.
pub proof fn lemma_game_over_fires_once(start: SessionState, steps: Seq<Step>)
    ensures
        game_over_events(start, steps) <= 1,
        game_over_events(start, steps) == 1 <==> !start.is_game_over && run(
            start,
            steps,
        ).is_game_over,
        start.is_game_over ==> run(start, steps).is_game_over,
    decreases steps.len(),
{
    if steps.len() > 0 {
        lemma_game_over_fires_once(start, steps.drop_last());
        lemma_end_is_final(run(start, steps.drop_last()), steps.last());
    }
}

/// A hit is felt once: a collision step right after another finds no bubble
/// to remove, and an effect step right after another finds no hit to
/// resolve.
pub proof fn lemma_hit_is_felt_once(state: SessionState)
    requires
        state.bubbles.len() <= usize::MAX,
    ensures
        state.collision_step().collision_step() == state.collision_step(),
        state.effect_step().effect_step() == state.effect_step(),
{
    lemma_no_second_hit(state.bubbles, state.player);
    let once = state.collision_step();
    assert(once.hits + Seq::<crate::bubble::BubbleHitEvent>::empty() =~= once.hits);
    let felt = state.effect_step();
    lemma_no_hit_no_effect(felt.oxygen, felt.freeze);
}

/// Once the session is over it stands still: a tick moves the player no
/// more, makes no bubble, lets the spawn timer rest and drains no oxygen.
/// Only the hits of bubbles that were in the water still change the supply.
pub proof fn lemma_over_session_stands_still(state: SessionState, input: TickInput)
    requires
        state.is_game_over,
    ensures
        state.tick(input).is_game_over,
        !state.tick_ends(input),
        state.tick(input).player == state.player,
        state.tick(input).timer == state.timer,
        state.tick_spawned(input).is_none(),
        state.tick(input).bubbles.len() <= state.bubbles.len(),
        state.tick(input).oxygen == oxygen_after_hits(
            state.oxygen,
            state.fixed_update(input).hits,
        ),
{
    let drifted = state.spawn_step(input.dt, input.type_index, input.direction@).drift_step(
        input.dt,
    ).input_step(input.keys, input.dt);
    drifted.bubbles.lemma_filter_len(is_missed(drifted.player));
}

/// While the player is frozen the keys are ignored: a tick leaves the player
/// where it is.
pub proof fn lemma_frozen_player_stays(state: SessionState, input: TickInput)
    requires
        state.freeze.is_frozen(),
    ensures
        state.tick(input).player == state.player,
{
}

} // verus!
