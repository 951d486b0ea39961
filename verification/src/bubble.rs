//! Bubbles, their kinds and what hitting one does to the player.

use vstd::prelude::*;

use crate::constants::{
    BUBBLE_EFFECT_FREEZE_DURATION, BUBBLE_EFFECT_OXYGEN_DECREASE_BIG,
    BUBBLE_EFFECT_OXYGEN_DECREASE_SMALL, BUBBLE_EFFECT_OXYGEN_INCREASE,
};
use crate::geometry::{Position, Velocity};

verus! {

/// The kind of a bubble.
#[derive(Clone, Copy, Debug, PartialEq, Eq, Hash, Structural)]
pub enum BubbleType {
    /// Restores oxygen.
    Regular,
    /// Costs a lot of oxygen.
    Blood,
    /// Costs a little oxygen.
    Dirt,
    /// Restores some oxygen and freezes the player.
    Freeze,
}

/// What a hit does: the change in oxygen, and for how long the player is
/// frozen (zero when the hit does not freeze).
#[derive(Clone, Copy, Debug, PartialEq, Eq, Structural)]
pub struct Effect {
    pub oxygen_delta: i64,
    pub freeze_duration: u64,
}

impl BubbleType {
    /// The kind that a drawn index stands for.
    pub open spec fn of_index(index: u32) -> BubbleType {
        if index == 1 {
            BubbleType::Blood
        } else if index == 2 {
            BubbleType::Dirt
        } else if index == 3 {
            BubbleType::Freeze
        } else {
            BubbleType::Regular
        }
    }

    /// The effect of hitting a bubble of this kind.
    pub open spec fn effect_of(self) -> Effect {
        match self {
            BubbleType::Regular => Effect {
                oxygen_delta: BUBBLE_EFFECT_OXYGEN_INCREASE,
                freeze_duration: 0,
            },
            BubbleType::Blood => Effect {
                oxygen_delta: (-BUBBLE_EFFECT_OXYGEN_DECREASE_BIG) as i64,
                freeze_duration: 0,
            },
            BubbleType::Dirt => Effect {
                oxygen_delta: (-BUBBLE_EFFECT_OXYGEN_DECREASE_SMALL) as i64,
                freeze_duration: 0,
            },
            BubbleType::Freeze => Effect {
                oxygen_delta: (BUBBLE_EFFECT_OXYGEN_INCREASE / 2) as i64,
                freeze_duration: BUBBLE_EFFECT_FREEZE_DURATION,
            },
        }
    }

    /// Whether a hit freezes the player.
    pub open spec fn freezes(self) -> bool {
        self == BubbleType::Freeze
    }

    /// Whether a hit adds oxygen.
    pub open spec fn restores_oxygen(self) -> bool {
        self == BubbleType::Regular || self == BubbleType::Freeze
    }

    /// Maps a drawn index onto a kind: 0 is regular, 1 blood, 2 dirt and 3
    /// freeze; any other index is regular.
    pub fn from_index(index: u32) -> (r: BubbleType)
        ensures
            r == BubbleType::of_index(index),
    {
        match index {
            1 => BubbleType::Blood,
            2 => BubbleType::Dirt,
            3 => BubbleType::Freeze,
            _ => BubbleType::Regular,
        }
    }

    /// The effect of hitting a bubble of this kind.
    pub fn effect(self) -> (r: Effect)
        ensures
            r == self.effect_of(),
            r.oxygen_delta > 0 <==> self.restores_oxygen(),
            r.freeze_duration > 0 <==> self.freezes(),
    {
        match self {
            BubbleType::Regular => Effect {
                oxygen_delta: BUBBLE_EFFECT_OXYGEN_INCREASE,
                freeze_duration: 0,
            },
            BubbleType::Blood => Effect {
                oxygen_delta: -BUBBLE_EFFECT_OXYGEN_DECREASE_BIG,
                freeze_duration: 0,
            },
            BubbleType::Dirt => Effect {
                oxygen_delta: -BUBBLE_EFFECT_OXYGEN_DECREASE_SMALL,
                freeze_duration: 0,
            },
            BubbleType::Freeze => Effect {
                oxygen_delta: BUBBLE_EFFECT_OXYGEN_INCREASE / 2,
                freeze_duration: BUBBLE_EFFECT_FREEZE_DURATION,
            },
        }
    }
}

/// A bubble in the water. It keeps the velocity it was created with and
/// lives until it hits the player.
#[derive(Clone, Copy, Debug, PartialEq, Eq, Structural)]
pub struct Bubble {
    pub position: Position,
    pub velocity: Velocity,
    pub bubble_type: BubbleType,
}

/// Notice that the player touched a bubble of the given kind.
#[derive(Clone, Copy, Debug, PartialEq, Eq, Structural)]
pub struct BubbleHitEvent {
    pub bubble_type: BubbleType,
}

} // verus!
