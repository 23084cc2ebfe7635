use game_of_life::rule::{next_state, OFFSETS};

#[test]
fn live_cell_dies_of_loneliness() {
    assert!(!next_state(true, 0));
    assert!(!next_state(true, 1));
}

#[test]
fn live_cell_survives_with_two_or_three() {
    assert!(next_state(true, 2));
    assert!(next_state(true, 3));
}

#[test]
fn live_cell_dies_of_crowding() {
    for count in 4..=8 {
        assert!(!next_state(true, count));
    }
    assert!(!next_state(true, 9));
    assert!(!next_state(true, usize::MAX));
}

#[test]
fn dead_cell_is_born_with_exactly_three() {
    assert!(next_state(false, 3));
}

#[test]
fn dead_cell_stays_dead_otherwise() {
    for count in [0, 1, 2, 4, 5, 6, 7, 8] {
        assert!(!next_state(false, count));
    }
    assert!(!next_state(false, usize::MAX));
}

#[test]
fn offsets_are_the_moore_neighbourhood() {
    assert_eq!(OFFSETS.len(), 8);
    let mut expected: Vec<(isize, isize)> = Vec::new();
    for dy in -1..=1 {
        for dx in -1..=1 {
            if (dx, dy) != (0, 0) {
                expected.push((dx, dy));
            }
        }
    }
    assert_eq!(OFFSETS.to_vec(), expected);
}
