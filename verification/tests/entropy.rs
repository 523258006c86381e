use bevy_rand::prelude::WyRand;
use blappy_birb::entropy::Entropy;
use rand::{Rng, SeedableRng};

#[test]
fn draws_are_what_the_generator_gives() {
    let mut entropy = Entropy::with_seed(42);
    assert_eq!(entropy.gen_range(100_000, 400_000), 236_746);
    assert_eq!(entropy.gen_range(100_000, 400_000), 368_650);
}

#[test]
fn seed_bytes_in_native_order_give_the_word() {
    let word = u64::from_ne_bytes(42i64.to_be_bytes());
    let mut entropy = Entropy::with_seed(word);
    let mut rng = WyRand::from_seed(42i64.to_be_bytes());
    for _ in 0..100 {
        let expected: i64 = rng.gen_range(100_000..400_000);
        assert_eq!(entropy.gen_range(100_000, 400_000), expected);
    }
}

#[test]
fn same_seed_same_sequence() {
    let mut first = Entropy::with_seed(7);
    let mut second = Entropy::with_seed(7);
    for _ in 0..1000 {
        assert_eq!(first.gen_range(-50, 50), second.gen_range(-50, 50));
    }
}

#[test]
fn different_seeds_part_ways() {
    let mut first = Entropy::with_seed(42);
    let mut second = Entropy::with_seed(43);
    let a: Vec<i64> = (0..8).map(|_| first.gen_range(0, 1_000_000)).collect();
    let b: Vec<i64> = (0..8).map(|_| second.gen_range(0, 1_000_000)).collect();
    assert_ne!(a, b);
}

#[test]
fn draws_stay_in_the_range() {
    let mut entropy = Entropy::with_seed(1);
    for _ in 0..10_000 {
        let value = entropy.gen_range(100_000, 400_000);
        assert!(100_000 <= value && value < 400_000);
    }
}

#[test]
fn range_of_one_value_gives_it() {
    let mut entropy = Entropy::with_seed(5);
    assert_eq!(entropy.gen_range(-3, -2), -3);
    assert_eq!(entropy.gen_range(i64::MAX - 1, i64::MAX), i64::MAX - 1);
}

#[test]
fn whole_range_can_be_drawn_from() {
    let mut entropy = Entropy::with_seed(9);
    let value = entropy.gen_range(i64::MIN, i64::MAX);
    assert!(value < i64::MAX);
}

#[test]
fn a_draw_moves_the_generator_on() {
    let mut entropy = Entropy::with_seed(0);
    assert_eq!(entropy.gen_range(0, 10), 6);
    let mut again = Entropy::with_seed(0);
    let first = again.gen_range(0, 1_000_000_000);
    let second = again.gen_range(0, 1_000_000_000);
    assert_ne!(first, second);
}
