//! The motion integrator: every bubble drifts along its velocity.

use vstd::prelude::*;

use crate::bubble::Bubble;
use crate::geometry::Position;
use crate::units::{saturate, saturating_add, scale, scaled, MICROS_PER_SECOND};

verus! {

/// The distance covered in `dt` microseconds at the given speed.
pub open spec fn displacement(speed: int, dt: u64) -> int {
    scaled(speed, dt as int, MICROS_PER_SECOND as int)
}

/// The bubble after drifting for `dt` microseconds. Only `x` and `z`
/// change; the velocity stays as it is.
pub open spec fn moved(bubble: Bubble, dt: u64) -> Bubble {
    Bubble {
        position: Position {
            x: saturate(bubble.position.x + displacement(bubble.velocity.x as int, dt)) as i64,
            y: bubble.position.y,
            z: saturate(bubble.position.z + displacement(bubble.velocity.z as int, dt)) as i64,
        },
        velocity: bubble.velocity,
        bubble_type: bubble.bubble_type,
    }
}

/// All bubbles after drifting for `dt` microseconds.
pub open spec fn all_moved(bubbles: Seq<Bubble>, dt: u64) -> Seq<Bubble> {
    Seq::new(bubbles.len(), |i: int| moved(bubbles[i], dt))
}

/// Lets one bubble drift for `dt` microseconds.
pub fn move_bubble(bubble: &Bubble, dt: u64) -> (r: Bubble)
    ensures
        r == moved(*bubble, dt),
{
    Bubble {
        position: Position {
            x: saturating_add(bubble.position.x, scale(bubble.velocity.x, dt, MICROS_PER_SECOND)),
            y: bubble.position.y,
            z: saturating_add(bubble.position.z, scale(bubble.velocity.z, dt, MICROS_PER_SECOND)),
        },
        velocity: bubble.velocity,
        bubble_type: bubble.bubble_type,
    }
}

/// Lets every bubble drift for `dt` microseconds.
pub fn move_bubbles(bubbles: &mut Vec<Bubble>, dt: u64)
    ensures
        final(bubbles)@ == all_moved(old(bubbles)@, dt),
{
    let count = bubbles.len();
    let mut i: usize = 0;
    while i < count
        invariant
            i <= count,
            bubbles@.len() == count,
            old(bubbles)@.len() == count,
            forall|j: int| 0 <= j < i ==> bubbles@[j] == moved(#[trigger] old(bubbles)@[j], dt),
            forall|j: int| i <= j < count ==> bubbles@[j] == #[trigger] old(bubbles)@[j],
        decreases count - i,
    {
        let drifted = move_bubble(&bubbles[i], dt);
        bubbles.set(i, drifted);
        i += 1;
    }
    assert(bubbles@ =~= all_moved(old(bubbles)@, dt));
}

} // verus!
