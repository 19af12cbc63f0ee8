use kakapo::rng::SimpleRng;

#[test]
fn draws_from_seed_zero_follow_the_lcg() {
    let mut rng = SimpleRng::from_seed(0);
    assert_eq!(rng.next_u32(), 0);
    assert_eq!(rng.next_u32(), 1481765933);
    assert_eq!(rng.next_u32(), 3232861391);
}

#[test]
fn draw_is_upper_half_of_new_state() {
    let mut rng = SimpleRng::from_seed(1);
    let expected_state = 1u64.wrapping_mul(6364136223846793005).wrapping_add(1);
    assert_eq!(expected_state, 6364136223846793006);
    assert_eq!(rng.next_u32(), (expected_state >> 32) as u32);
}

#[test]
fn same_seed_gives_same_sequence() {
    let mut a = SimpleRng::from_seed(123456789);
    let mut b = SimpleRng::from_seed(123456789);
    for _ in 0..100 {
        assert_eq!(a.next_u32(), b.next_u32());
    }
}

#[test]
fn nanosecond_seed_keeps_the_low_64_bits() {
    let nanos: u128 = (5u128 << 64) + 42;
    let mut a = SimpleRng::from_nanos(nanos);
    let mut b = SimpleRng::from_seed(42);
    for _ in 0..10 {
        assert_eq!(a.next_u32(), b.next_u32());
    }
}

#[test]
fn clock_seeded_generator_draws() {
    let mut rng = SimpleRng::new().expect("clock after the Unix epoch");
    let mut copy_state_rng = SimpleRng::new().expect("clock after the Unix epoch");
    let draws: Vec<u32> = (0..4).map(|_| rng.next_u32()).collect();
    let other: Vec<u32> = (0..4).map(|_| copy_state_rng.next_u32()).collect();
    assert_eq!(draws.len(), 4);
    assert_eq!(other.len(), 4);
}

#[test]
fn epoch_offset_seeds_or_reports_a_clock_before_the_epoch() {
    assert!(SimpleRng::from_epoch_offset(None).is_none());
    let mut a = SimpleRng::from_epoch_offset(Some((7u128 << 64) + 99)).expect("seeded");
    let mut b = SimpleRng::from_seed(99);
    for _ in 0..10 {
        assert_eq!(a.next_u32(), b.next_u32());
    }
}
