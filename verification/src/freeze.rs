//! The freeze debuff: a countdown during which the player cannot move.

use vstd::prelude::*;

verus! {

/// The freeze debuff. The player is frozen while `time_remaining`, in
/// microseconds, is above zero.
#[derive(Clone, Copy, Debug, PartialEq, Eq, Structural)]
pub struct BubbleFreezeEffect {
    pub time_remaining: u64,
}

impl BubbleFreezeEffect {
    /// Whether the player is frozen.
    pub open spec fn is_frozen(self) -> bool {
        self.time_remaining > 0
    }

    /// The debuff after `dt` more microseconds: it runs down and stops at
    /// zero.
    pub open spec fn after(self, dt: u64) -> BubbleFreezeEffect {
        BubbleFreezeEffect {
            time_remaining: if self.time_remaining > dt {
                (self.time_remaining - dt) as u64
            } else {
                0
            },
        }
    }

    /// No debuff.
    pub fn new() -> (r: BubbleFreezeEffect)
        ensures
            r.time_remaining == 0,
    {
        BubbleFreezeEffect { time_remaining: 0 }
    }

    /// Whether the player is frozen.
    pub fn is_active(&self) -> (r: bool)
        ensures
            r == self.is_frozen(),
    {
        self.time_remaining > 0
    }
}

/// Runs the freeze debuff down by `dt` microseconds; it stops at zero.
pub fn run_bubble_freeze_timer(effect: &mut BubbleFreezeEffect, dt: u64)
    ensures
        *final(effect) == old(effect).after(dt),
{
    if effect.time_remaining > dt {
        effect.time_remaining = effect.time_remaining - dt;
    } else {
        effect.time_remaining = 0;
    }
}

} // verus!
