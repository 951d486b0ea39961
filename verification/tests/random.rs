use bubble_core::bubble::BubbleType;
use bubble_core::constants::{PLATEAU_MAXIMUM_PLANTS, PLATEAU_MINIMUM_PLANTS};
use bubble_core::random::{draw_bubble_type_index, draw_plant_count, BUBBLE_TYPE_COUNT};

#[test]
fn drawn_type_index_is_below_the_count() {
    for _ in 0..1000 {
        assert!(draw_bubble_type_index() < BUBBLE_TYPE_COUNT);
    }
}

#[test]
fn every_type_index_is_drawn() {
    let mut seen = [false; 4];
    for _ in 0..2000 {
        seen[draw_bubble_type_index() as usize] = true;
    }
    assert_eq!(seen, [true, true, true, true]);
}

#[test]
fn every_type_is_drawn() {
    let mut regular = false;
    let mut blood = false;
    let mut dirt = false;
    let mut freeze = false;
    for _ in 0..2000 {
        match BubbleType::from_index(draw_bubble_type_index()) {
            BubbleType::Regular => regular = true,
            BubbleType::Blood => blood = true,
            BubbleType::Dirt => dirt = true,
            BubbleType::Freeze => freeze = true,
        }
    }
    assert!(regular && blood && dirt && freeze);
}

#[test]
fn plant_count_is_in_range() {
    let mut lowest = u32::MAX;
    let mut highest = 0;
    for _ in 0..2000 {
        let count = draw_plant_count();
        assert!(PLATEAU_MINIMUM_PLANTS <= count && count < PLATEAU_MAXIMUM_PLANTS);
        lowest = lowest.min(count);
        highest = highest.max(count);
    }
    assert!(lowest < highest);
}
