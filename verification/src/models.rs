//! Which bubble kinds have a model to show them with.

use vstd::prelude::*;

use crate::bubble::BubbleType;

verus! {

/// The bubble kinds whose model has been loaded. A bubble of a kind without
/// a model is not spawned.
#[derive(Clone, Copy, Debug, PartialEq, Eq, Structural)]
pub struct BubbleModels {
    pub regular: bool,
    pub blood: bool,
    pub dirt: bool,
    pub freeze: bool,
}

impl BubbleModels {
    /// Whether the model of the given kind has been loaded.
    pub open spec fn has(self, bubble_type: BubbleType) -> bool {
        match bubble_type {
            BubbleType::Regular => self.regular,
            BubbleType::Blood => self.blood,
            BubbleType::Dirt => self.dirt,
            BubbleType::Freeze => self.freeze,
        }
    }

    /// These models and the one of the given kind.
    pub open spec fn with(self, bubble_type: BubbleType) -> BubbleModels {
        match bubble_type {
            BubbleType::Regular => BubbleModels { regular: true, ..self },
            BubbleType::Blood => BubbleModels { blood: true, ..self },
            BubbleType::Dirt => BubbleModels { dirt: true, ..self },
            BubbleType::Freeze => BubbleModels { freeze: true, ..self },
        }
    }

    /// No model loaded yet.
    pub open spec fn none() -> BubbleModels {
        BubbleModels { regular: false, blood: false, dirt: false, freeze: false }
    }

    /// The state before any model has been loaded.
    pub fn new() -> (r: BubbleModels)
        ensures
            r == BubbleModels::none(),
    {
        BubbleModels { regular: false, blood: false, dirt: false, freeze: false }
    }

    /// Whether the model of the given kind has been loaded.
    pub fn is_available(&self, bubble_type: BubbleType) -> (r: bool)
        ensures
            r == self.has(bubble_type),
    {
        match bubble_type {
            BubbleType::Regular => self.regular,
            BubbleType::Blood => self.blood,
            BubbleType::Dirt => self.dirt,
            BubbleType::Freeze => self.freeze,
        }
    }

    /// Records that the model of the given kind has been loaded.
    pub fn insert(&mut self, bubble_type: BubbleType)
        ensures
            *final(self) == old(self).with(bubble_type),
    {
        match bubble_type {
            BubbleType::Regular => {
                self.regular = true;
            },
            BubbleType::Blood => {
                self.blood = true;
            },
            BubbleType::Dirt => {
                self.dirt = true;
            },
            BubbleType::Freeze => {
                self.freeze = true;
            },
        }
    }
}

} // verus!
