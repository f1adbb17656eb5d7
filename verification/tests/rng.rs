use rsc8_core::frontend::generator_from_millis;
use rsc8_core::rng::{LinearCongruentialGenerator, RandomSource};
use rsc8_core::simple_rng::SimpleRng;

#[test]
fn default_seed_is_996() {
    assert_eq!(LinearCongruentialGenerator::default().seed, 996);
    assert_eq!(SimpleRng::default().seed, 996);
}

#[test]
fn first_value_from_default_seed() {
    let mut generator = LinearCongruentialGenerator::default();
    // 996 * 75 + 74 = 74774 = 65536 + 9238
    assert_eq!(generator.next(), 9238);
    assert_eq!(generator.seed, 9238);
}

#[test]
fn values_follow_the_recurrence() {
    let mut generator = LinearCongruentialGenerator { seed: 1 };
    let mut seed: u32 = 1;
    for _ in 0..1000 {
        seed = (seed * 75 + 74) % 65536;
        assert_eq!(u32::from(generator.next()), seed);
    }
}

#[test]
fn same_seed_same_sequence() {
    let mut first = LinearCongruentialGenerator { seed: 4242 };
    let mut second = LinearCongruentialGenerator { seed: 4242 };
    for _ in 0..100 {
        assert_eq!(first.next(), second.next());
    }
}

#[test]
fn reseeding_restarts_the_sequence() {
    let mut generator = LinearCongruentialGenerator::default();
    let first = generator.next();
    generator.next();
    generator.seed = 996;
    assert_eq!(generator.next(), first);
}

#[test]
fn largest_seed_wraps() {
    let mut generator = LinearCongruentialGenerator { seed: 0xFFFF };
    // 65535 * 75 + 74 = 4915199 = 74 * 65536 + 65535
    assert_eq!(generator.next(), 65535);
}

#[test]
fn simple_rng_matches_the_generator() {
    let mut simple = SimpleRng::default();
    let mut generator = LinearCongruentialGenerator::default();
    for _ in 0..100 {
        assert_eq!(simple.next(), generator.next());
    }
}

#[test]
fn seed_from_millis_keeps_the_low_sixteen_bits() {
    assert_eq!(generator_from_millis(0).seed, 0);
    assert_eq!(generator_from_millis(65535).seed, 65535);
    assert_eq!(generator_from_millis(65536).seed, 0);
    // 1_700_000_000_123 = 25939941 * 65536 + 26747
    assert_eq!(generator_from_millis(1_700_000_000_123).seed, 26747);
}
