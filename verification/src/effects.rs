//! The effect resolver: what the queued hits do to the player.

use vstd::prelude::*;

use crate::bubble::BubbleHitEvent;
use crate::constants::BUBBLE_EFFECT_FREEZE_DURATION;
use crate::freeze::BubbleFreezeEffect;
use crate::units::clamp;

verus! {

/// The sum of the oxygen changes of the given hits.
pub open spec fn total_delta(hits: Seq<BubbleHitEvent>) -> int
    decreases hits.len(),
{
    if hits.len() == 0 {
        0
    } else {
        total_delta(hits.drop_last()) + hits.last().bubble_type.effect_of().oxygen_delta
    }
}

/// Whether one of the given hits freezes the player.
pub open spec fn any_freezes(hits: Seq<BubbleHitEvent>) -> bool {
    exists|i: int| 0 <= i < hits.len() && (#[trigger] hits[i]).bubble_type.freezes()
}

/// Whether one of the given hits adds oxygen.
pub open spec fn any_restores(hits: Seq<BubbleHitEvent>) -> bool {
    exists|i: int| 0 <= i < hits.len() && (#[trigger] hits[i]).bubble_type.restores_oxygen()
}

/// The supply after the given hits: every change is added; the result does
/// not go below zero and has no upper limit but the range of `u64`.
pub open spec fn oxygen_after_hits(oxygen: u64, hits: Seq<BubbleHitEvent>) -> u64 {
    clamp(oxygen + total_delta(hits), 0, u64::MAX as int) as u64
}

/// The freeze debuff after the given hits: a freezing hit sets the time to
/// the fixed duration, whatever was left before.
pub open spec fn freeze_after_hits(freeze: BubbleFreezeEffect, hits: Seq<BubbleHitEvent>)
    -> BubbleFreezeEffect {
    if any_freezes(hits) {
        BubbleFreezeEffect { time_remaining: BUBBLE_EFFECT_FREEZE_DURATION }
    } else {
        freeze
    }
}

/// Resolves the queued hits in the order in which they came, and empties
/// the queue: the supply changes by the sum of the hits' changes, and a
/// freezing hit among them sets the freeze time to the fixed duration.
pub fn handle_bubble_hit(
    hits: &mut Vec<BubbleHitEvent>,
    oxygen: &mut u64,
    freeze: &mut BubbleFreezeEffect,
)
    ensures
        final(hits)@ == Seq::<BubbleHitEvent>::empty(),
        *final(oxygen) == oxygen_after_hits(*old(oxygen), old(hits)@),
        *final(freeze) == freeze_after_hits(*old(freeze), old(hits)@),
{
    let count = hits.len();
    let mut sum: i128 = 0;
    let mut frozen = false;
    let mut i: usize = 0;
    while i < count
        invariant
            i <= count,
            hits@.len() == count,
            hits@ == old(hits)@,
            sum == total_delta(hits@.take(i as int)),
            -4_000_000 * i <= sum <= 2_000_000 * i,
            frozen == any_freezes(hits@.take(i as int)),
        decreases count - i,
    {
        let effect = hits[i].bubble_type.effect();
        proof {
            let before = hits@.take(i as int);
            let after = hits@.take(i + 1);
            assert(after.drop_last() =~= before);
            assert(after.last() == hits@[i as int]);
            if effect.freeze_duration > 0 {
                assert(after[i as int].bubble_type.freezes());
            } else if any_freezes(after) {
                let k = choose|k: int|
                    0 <= k < after.len() && (#[trigger] after[k]).bubble_type.freezes();
                assert(before[k].bubble_type.freezes());
            } else if any_freezes(before) {
                let k = choose|k: int|
                    0 <= k < before.len() && (#[trigger] before[k]).bubble_type.freezes();
                assert(after[k].bubble_type.freezes());
            }
        }
        sum = sum + effect.oxygen_delta as i128;
        if effect.freeze_duration > 0 {
            frozen = true;
        }
        i += 1;
    }
    assert(hits@.take(count as int) =~= hits@);
    let level: i128 = *oxygen as i128 + sum;
    if level < 0 {
        *oxygen = 0;
    } else if level > u64::MAX as i128 {
        *oxygen = u64::MAX;
    } else {
        *oxygen = level as u64;
    }
    if frozen {
        freeze.time_remaining = BUBBLE_EFFECT_FREEZE_DURATION;
    }
    hits.clear();
}

/// Hits that add no oxygen do not raise the supply.
pub proof fn lemma_no_gain_without_restoring_hit(oxygen: u64, hits: Seq<BubbleHitEvent>)
    requires
        !any_restores(hits),
    ensures
        total_delta(hits) <= 0,
        oxygen_after_hits(oxygen, hits) <= oxygen,
    decreases hits.len(),
{
    if hits.len() > 0 {
        let earlier = hits.drop_last();
        if any_restores(earlier) {
            let k = choose|k: int|
                0 <= k < earlier.len() && (#[trigger] earlier[k]).bubble_type.restores_oxygen();
            assert(hits[k].bubble_type.restores_oxygen());
        }
        lemma_no_gain_without_restoring_hit(oxygen, earlier);
        assert(!hits[hits.len() - 1].bubble_type.restores_oxygen());
    }
}

/// A freezing hit sets the freeze time to the fixed duration, whatever was
/// left of an earlier freeze: the time is reset, not added to.
pub proof fn lemma_freeze_resets(
    freeze: BubbleFreezeEffect,
    other: BubbleFreezeEffect,
    hits: Seq<BubbleHitEvent>,
)
    requires
        any_freezes(hits),
    ensures
        freeze_after_hits(freeze, hits).time_remaining == BUBBLE_EFFECT_FREEZE_DURATION,
        freeze_after_hits(freeze, hits) == freeze_after_hits(other, hits),
{
}

/// With no hit queued the resolver changes nothing.
pub proof fn lemma_no_hit_no_effect(oxygen: u64, freeze: BubbleFreezeEffect)
    ensures
        oxygen_after_hits(oxygen, Seq::empty()) == oxygen,
        freeze_after_hits(freeze, Seq::empty()) == freeze,
{
}

/// The oxygen change of two runs of hits, one after the other, is the sum
/// of their changes.
pub proof fn lemma_total_delta_concat(first: Seq<BubbleHitEvent>, second: Seq<BubbleHitEvent>)
    ensures
        total_delta(first + second) == total_delta(first) + total_delta(second),
    decreases second.len(),
{
    if second.len() == 0 {
        assert(first + second =~= first);
    } else {
        lemma_total_delta_concat(first, second.drop_last());
        assert((first + second).drop_last() =~= first + second.drop_last());
    }
}

/// The order in which hits of one tick are queued does not matter: two runs
/// of hits resolve to the same supply and the same freeze in either order.
pub proof fn lemma_order_of_hits(
    oxygen: u64,
    freeze: BubbleFreezeEffect,
    first: Seq<BubbleHitEvent>,
    second: Seq<BubbleHitEvent>,
)
    ensures
        oxygen_after_hits(oxygen, first + second) == oxygen_after_hits(oxygen, second + first),
        freeze_after_hits(freeze, first + second) == freeze_after_hits(freeze, second + first),
{
    lemma_total_delta_concat(first, second);
    lemma_total_delta_concat(second, first);
    let forth = first + second;
    let back = second + first;
    if any_freezes(forth) {
        let k = choose|k: int| 0 <= k < forth.len() && (#[trigger] forth[k]).bubble_type.freezes();
        if k < first.len() {
            assert(back[second.len() + k].bubble_type.freezes());
        } else {
            assert(back[k - first.len()].bubble_type.freezes());
        }
    }
    if any_freezes(back) {
        let k = choose|k: int| 0 <= k < back.len() && (#[trigger] back[k]).bubble_type.freezes();
        if k < second.len() {
            assert(forth[first.len() + k].bubble_type.freezes());
        } else {
            assert(forth[k - second.len()].bubble_type.freezes());
        }
    }
}

} // verus!
