//! The collision detector: which bubbles touch the player.

use vstd::prelude::*;

use crate::bubble::{Bubble, BubbleHitEvent};
use crate::constants::{BUBBLE_RADIUS, PLAYER_RADIUS};
use crate::geometry::{BoundingSphere, Position};

verus! {

/// The player's bounding sphere.
pub open spec fn player_sphere(player: Position) -> BoundingSphere {
    BoundingSphere { center: player, radius: PLAYER_RADIUS }
}

/// A bubble's bounding sphere.
pub open spec fn bubble_sphere(bubble: Bubble) -> BoundingSphere {
    BoundingSphere { center: bubble.position, radius: BUBBLE_RADIUS }
}

/// Whether the bubble touches the player: their centers are no farther
/// apart than the sum of the two radii.
pub open spec fn touches(player: Position, bubble: Bubble) -> bool {
    bubble_sphere(bubble).overlaps(player_sphere(player))
}

/// The test for the bubbles that touch the player.
pub open spec fn is_hit(player: Position) -> spec_fn(Bubble) -> bool {
    |bubble: Bubble| touches(player, bubble)
}

/// The test for the bubbles that do not touch the player.
pub open spec fn is_missed(player: Position) -> spec_fn(Bubble) -> bool {
    |bubble: Bubble| !touches(player, bubble)
}

/// The notice for a hit bubble.
pub open spec fn event_of() -> spec_fn(Bubble) -> BubbleHitEvent {
    |bubble: Bubble| BubbleHitEvent { bubble_type: bubble.bubble_type }
}

/// The bubbles that stay: those that do not touch the player, in their
/// order.
pub open spec fn survivors(bubbles: Seq<Bubble>, player: Position) -> Seq<Bubble> {
    bubbles.filter(is_missed(player))
}

/// The notices for the bubbles that touch the player, in the bubbles'
/// order.
pub open spec fn hit_events(bubbles: Seq<Bubble>, player: Position) -> Seq<BubbleHitEvent> {
    bubbles.filter(is_hit(player)).map_values(event_of())
}

/// The test for the places of the bubbles that touch the player.
pub open spec fn is_hit_at(bubbles: Seq<Bubble>, player: Position) -> spec_fn(usize) -> bool {
    |i: usize| touches(player, bubbles[i as int])
}

/// The first `n` places of a list.
pub open spec fn places(n: nat) -> Seq<usize> {
    Seq::new(n, |i: int| i as usize)
}

/// The places of the bubbles that touch the player, in rising order.
pub open spec fn hit_places(bubbles: Seq<Bubble>, player: Position) -> Seq<usize> {
    places(bubbles.len()).filter(is_hit_at(bubbles, player))
}

/// Whether the bubble touches the player.
pub fn bubble_hits_player(player: &Position, bubble: &Bubble) -> (r: bool)
    ensures
        r == touches(*player, *bubble),
{
    let player_sphere = BoundingSphere::new(*player, PLAYER_RADIUS);
    let bubble_sphere = BoundingSphere::new(bubble.position, BUBBLE_RADIUS);
    bubble_sphere.intersects(&player_sphere)
}

/// The collision step of one tick. Every bubble that touches the player is
/// removed and a notice of its kind is put at the end of the queue, in the
/// bubbles' order; the other bubbles stay as they are. Returns the places
/// that the removed bubbles had in the list.
pub fn check_collisions(
    player: &Position,
    bubbles: &mut Vec<Bubble>,
    hits: &mut Vec<BubbleHitEvent>,
) -> (removed: Vec<usize>)
    ensures
        final(bubbles)@ == survivors(old(bubbles)@, *player),
        final(hits)@ == old(hits)@ + hit_events(old(bubbles)@, *player),
        removed@ == hit_places(old(bubbles)@, *player),
{
    let count = bubbles.len();
    let mut kept: Vec<Bubble> = Vec::new();
    let mut removed: Vec<usize> = Vec::new();
    let ghost all = bubbles@;
    let ghost queued = hits@;
    proof {
        lemma_filter_empty(all.take(0), is_missed(*player));
        lemma_filter_empty(all.take(0), is_hit(*player));
        lemma_filter_empty(places(0), is_hit_at(all, *player));
        assert(hits@ =~= queued + all.take(0).filter(is_hit(*player)).map_values(event_of()));
    }
    let mut i: usize = 0;
    while i < count
        invariant
            i <= count,
            count == all.len(),
            bubbles@ == all,
            kept@ == all.take(i as int).filter(is_missed(*player)),
            hits@ == queued + all.take(i as int).filter(is_hit(*player)).map_values(event_of()),
            removed@ == places(i as nat).filter(is_hit_at(all, *player)),
        decreases count - i,
    {
        let bubble = bubbles[i];
        let ghost seen = all.take(i as int);
        let ghost struck = seen.filter(is_hit(*player));
        proof {
            assert(all.take(i + 1) =~= seen.push(bubble));
            assert(places((i + 1) as nat) =~= places(i as nat).push(i));
            seen.lemma_filter_push(bubble, is_missed(*player));
            seen.lemma_filter_push(bubble, is_hit(*player));
            places(i as nat).lemma_filter_push(i, is_hit_at(all, *player));
            struck.lemma_push_map_commute(event_of(), bubble);
        }
        if bubble_hits_player(player, &bubble) {
            hits.push(BubbleHitEvent { bubble_type: bubble.bubble_type });
            removed.push(i);
            assert(hits@ =~= queued + struck.map_values(event_of()).push(event_of()(bubble)));
        } else {
            kept.push(bubble);
        }
        i += 1;
    }
    assert(all.take(count as int) =~= all);
    *bubbles = kept;
    removed
}

/// Filtering an empty list gives an empty list.
proof fn lemma_filter_empty<A>(s: Seq<A>, pred: spec_fn(A) -> bool)
    requires
        s.len() == 0,
    ensures
        s.filter(pred) =~= Seq::<A>::empty(),
{
    reveal(Seq::filter);
}

/// A filter keeps nothing of a list in which no item passes.
proof fn lemma_filter_none<A>(s: Seq<A>, pred: spec_fn(A) -> bool)
    requires
        forall|i: int| 0 <= i < s.len() ==> !pred(#[trigger] s[i]),
    ensures
        s.filter(pred) == Seq::<A>::empty(),
    decreases s.len(),
{
    reveal(Seq::filter);
    if s.len() > 0 {
        lemma_filter_none(s.drop_last(), pred);
    }
}

/// A filter keeps the whole of a list in which every item passes.
proof fn lemma_filter_all<A>(s: Seq<A>, pred: spec_fn(A) -> bool)
    requires
        forall|i: int| 0 <= i < s.len() ==> pred(#[trigger] s[i]),
    ensures
        s.filter(pred) == s,
    decreases s.len(),
{
    reveal(Seq::filter);
    if s.len() > 0 {
        lemma_filter_all(s.drop_last(), pred);
        assert(s.drop_last().push(s.last()) =~= s);
    }
}

/// Two filters of which each item passes exactly one split a list.
proof fn lemma_filter_split<A>(s: Seq<A>, pred: spec_fn(A) -> bool, other: spec_fn(A) -> bool)
    requires
        forall|i: int| 0 <= i < s.len() ==> pred(#[trigger] s[i]) != other(s[i]),
    ensures
        s.filter(pred).len() + s.filter(other).len() == s.len(),
    decreases s.len(),
{
    reveal(Seq::filter);
    if s.len() > 0 {
        lemma_filter_split(s.drop_last(), pred, other);
    }
}

/// The places reported for the first `n` bubbles are as many as the bubbles
/// among them that touch the player.
proof fn lemma_places_count(bubbles: Seq<Bubble>, player: Position, n: nat)
    requires
        n <= bubbles.len() <= usize::MAX,
    ensures
        places(n).filter(is_hit_at(bubbles, player)).len() == bubbles.take(n as int).filter(
            is_hit(player),
        ).len(),
    decreases n,
{
    reveal(Seq::filter);
    if n > 0 {
        let fewer = (n - 1) as nat;
        lemma_places_count(bubbles, player, fewer);
        assert(places(n).drop_last() =~= places(fewer));
        assert(bubbles.take(n as int).drop_last() =~= bubbles.take(fewer as int));
    }
}

/// After the collision step no bubble in the water touches the player.
pub proof fn lemma_survivors_clear(bubbles: Seq<Bubble>, player: Position)
    ensures
        forall|i: int|
            0 <= i < survivors(bubbles, player).len() ==> !touches(
                player,
                #[trigger] survivors(bubbles, player)[i],
            ),
{
    let kept = survivors(bubbles, player);
    assert forall|i: int| 0 <= i < kept.len() implies !touches(player, #[trigger] kept[i]) by {
        bubbles.lemma_filter_pred(is_missed(player), i);
    }
}

/// A bubble is hit at most once: a second collision step right after the
/// first removes nothing and reports no hit.
pub proof fn lemma_no_second_hit(bubbles: Seq<Bubble>, player: Position)
    requires
        bubbles.len() <= usize::MAX,
    ensures
        survivors(survivors(bubbles, player), player) == survivors(bubbles, player),
        hit_events(survivors(bubbles, player), player) == Seq::<BubbleHitEvent>::empty(),
        hit_places(survivors(bubbles, player), player) == Seq::<usize>::empty(),
{
    let kept = survivors(bubbles, player);
    lemma_survivors_clear(bubbles, player);
    bubbles.lemma_filter_len(is_missed(player));
    lemma_filter_all(kept, is_missed(player));
    lemma_filter_none(kept, is_hit(player));
    assert(hit_events(kept, player) =~= Seq::<BubbleHitEvent>::empty());
    lemma_places_count(kept, player, kept.len());
    assert(kept.take(kept.len() as int) =~= kept);
    assert(hit_places(kept, player) =~= Seq::<usize>::empty());
}

/// Every bubble either stays in the water or is removed with exactly one
/// notice and one reported place.
pub proof fn lemma_stays_or_hits_once(bubbles: Seq<Bubble>, player: Position)
    requires
        bubbles.len() <= usize::MAX,
    ensures
        survivors(bubbles, player).len() + hit_events(bubbles, player).len() == bubbles.len(),
        hit_places(bubbles, player).len() == hit_events(bubbles, player).len(),
{
    lemma_filter_split(bubbles, is_missed(player), is_hit(player));
    lemma_places_count(bubbles, player, bubbles.len());
    assert(bubbles.take(bubbles.len() as int) =~= bubbles);
}

} // verus!
