//! The random draws of the game.

use rand::Rng;
use vstd::prelude::*;

use crate::constants::{PLATEAU_MAXIMUM_PLANTS, PLATEAU_MINIMUM_PLANTS};

verus! {

/// How many kinds of bubble there are to draw from.
pub const BUBBLE_TYPE_COUNT: u32 = 4;

/// Draws a number from `low..high` with `rand::Rng::gen_range` on the
/// thread's generator.
///
/// Trusted: `gen_range` panics on an empty range, which `requires` rules
/// out, and returns a value of the range. Nothing is claimed about which
/// value comes.
#[verifier::external_body]
fn gen_range(low: u32, high: u32) -> (r: u32)
    requires
        low < high,
    ensures
        low <= r < high,
{
    rand::thread_rng().gen_range(low..high)
}

/// Draws the index of the kind of the next bubble; [`BubbleType::from_index`]
/// turns it into the kind.
///
/// [`BubbleType::from_index`]: crate::bubble::BubbleType::from_index
pub fn draw_bubble_type_index() -> (r: u32)
    ensures
        r < BUBBLE_TYPE_COUNT,
{
    gen_range(0, BUBBLE_TYPE_COUNT)
}

/// Draws how many plants to scatter on the plateau.
pub fn draw_plant_count() -> (r: u32)
    ensures
        PLATEAU_MINIMUM_PLANTS <= r < PLATEAU_MAXIMUM_PLANTS,
{
    gen_range(PLATEAU_MINIMUM_PLANTS, PLATEAU_MAXIMUM_PLANTS)
}

} // verus!
