use banana_man::random::{roll, settle};

#[test]
fn settle_brings_a_number_into_the_range() {
    assert_eq!(settle(0, 1, 4), 1);
    assert_eq!(settle(3, 1, 4), 3);
    assert_eq!(settle(4, 1, 4), 4);
    assert_eq!(settle(5, 1, 4), 4);
    assert_eq!(settle(u32::MAX, 0, 0), 0);
}

#[test]
fn roll_of_an_empty_or_single_range_is_its_start() {
    assert_eq!(roll(3, 3), 3);
    assert_eq!(roll(5, 2), 5);
    assert_eq!(roll(u32::MAX, u32::MAX), u32::MAX);
}

#[test]
fn roll_stays_within_both_bounds() {
    for _ in 0..2000 {
        let r = roll(1, 4);
        assert!((1..=4).contains(&r));
    }
    for _ in 0..200 {
        let r = roll(u32::MAX - 1, u32::MAX);
        assert!(r >= u32::MAX - 1);
    }
}

#[test]
fn roll_reaches_every_number_of_a_small_range() {
    let mut seen = [false; 5];
    for _ in 0..2000 {
        seen[roll(1, 4) as usize] = true;
    }
    assert_eq!(seen, [false, true, true, true, true]);
}

#[test]
fn roll_does_not_hand_its_bound_back() {
    let mut low = 0;
    let mut other = 0;
    for _ in 0..500 {
        if roll(0, 1_000_000) == 0 {
            low += 1;
        } else {
            other += 1;
        }
    }
    assert!(other > low);
}
