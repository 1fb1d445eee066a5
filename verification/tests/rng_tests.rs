use pong::rng::XorShift;

#[test]
fn seed_42_gives_a_fixed_sequence() {
    let mut g = XorShift::new(42);
    let expected: [u64; 8] = [
        45454805674,
        11532217803599905471,
        10021416941527320954,
        2899061411254629736,
        5661411637479084162,
        10094803945545275427,
        11439985393877029075,
        10624261412083704114,
    ];
    for &e in expected.iter() {
        assert_eq!(g.next(), e);
    }
}

#[test]
fn equal_seeds_give_equal_streams() {
    let mut a = XorShift::new(0xDEAD_BEEF);
    let mut b = XorShift::new(0xDEAD_BEEF);
    for _ in 0..100 {
        assert_eq!(a.next(), b.next());
    }
}

#[test]
fn state_after_next_is_the_returned_value() {
    let mut g = XorShift::new(7);
    let r = g.next();
    assert_eq!(g.x, r);
}
