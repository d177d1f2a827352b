use evosearch::rnglib::{RngGenerator64, XorRng64};

#[test]
fn same_seed_same_bounded_stream() {
    let mut a = XorRng64::new(12345);
    let mut b = XorRng64::new(12345);
    for _ in 0..100 {
        assert_eq!(a.next(1000), b.next(1000));
    }
}

#[test]
fn bounded_values_stay_below_range() {
    for range in [1u64, 2, 3, 7, 10, 1000, u64::MAX] {
        let mut rng = XorRng64::new(987654321);
        for _ in 0..50 {
            let v = rng.next(range);
            assert!(v < range);
        }
    }
}

#[test]
fn range_one_always_yields_zero() {
    let mut rng = XorRng64::new(31);
    for _ in 0..20 {
        assert_eq!(rng.next(1), 0);
    }
}

#[test]
fn same_seed_same_substreams() {
    let mut g1 = RngGenerator64::new(777);
    let mut g2 = RngGenerator64::new(777);
    for _ in 0..20 {
        let mut s1 = g1.next();
        let mut s2 = g2.next();
        assert_eq!(s1.initial_seed, s2.initial_seed);
        assert_eq!(s1.next(64), s2.next(64));
    }
}

#[test]
fn substream_is_keyed_with_generator_state() {
    let mut g = RngGenerator64::new(2024);
    let s = g.next();
    assert_eq!(s.initial_seed, g.state);
    assert_eq!(s.state, g.state);
}
