use cd74hc4067::U4;
use core::cmp::Ordering;
use core::convert::TryFrom;

#[test]
fn validated_accepts_every_value_in_range_and_round_trips() {
    for v in 0u16..=15 {
        let c = U4::try_from(v).expect("in range");
        assert_eq!(u16::from(c), v);
    }
}

#[test]
fn validated_rejects_values_above_fifteen() {
    assert!(U4::try_from(16u16).is_err());
    assert!(U4::try_from(65535u16).is_err());
    assert_eq!(U4::try_from(16u16), Err(()));
    for v in 16u16..=300 {
        assert!(U4::try_from(v).is_err());
    }
}

#[test]
fn truncated_wraps_modulo_sixteen() {
    // Truncation keeps the low four bits; with modulo fifteen, fifteen itself
    // would wrap to zero and never be reachable.
    assert_eq!(U4::truncated(16), U4::try_from(0u16).unwrap());
    assert_eq!(U4::truncated(20), U4::try_from(4u16).unwrap());
    assert_eq!(u16::from(U4::truncated(15)), 15);
    assert_eq!(u16::from(U4::truncated(31)), 15);
    assert_eq!(u16::from(U4::truncated(65535)), 15);
    assert_eq!(u16::from(U4::truncated(0)), 0);
}

#[test]
fn truncated_always_lies_in_range() {
    for v in 0u16..=1000 {
        let c = u16::from(U4::truncated(v));
        assert!(c <= 15);
        assert_eq!(c, v % 16);
    }
    assert!(u16::from(U4::truncated(u16::MAX)) <= 15);
}

#[test]
fn equality_and_order_follow_the_value() {
    for a in 0u16..=15 {
        for b in 0u16..=15 {
            let x = U4::try_from(a).unwrap();
            let y = U4::try_from(b).unwrap();
            assert_eq!(x == y, a == b);
            assert_eq!(x.partial_cmp(&y), a.partial_cmp(&b));
            assert_eq!(x.cmp(&y), a.cmp(&b));
            assert_eq!(x < y, a < b);
            assert_eq!(x >= y, a >= b);
        }
    }
    assert_eq!(
        U4::truncated(3).partial_cmp(&U4::truncated(9)),
        Some(Ordering::Less)
    );
}

#[test]
fn copies_are_equal() {
    let a = U4::truncated(7);
    let b = a;
    assert_eq!(a, b);
    assert_eq!(a.clone(), b);
}

#[test]
fn named_indices_hold_their_values() {
    let named = [
        U4::zero(),
        U4::one(),
        U4::two(),
        U4::three(),
        U4::four(),
        U4::five(),
        U4::six(),
        U4::seven(),
        U4::eight(),
        U4::nine(),
        U4::ten(),
        U4::eleven(),
        U4::twelve(),
        U4::thirteen(),
        U4::fourteen(),
        U4::fifteen(),
    ];
    for (v, c) in named.iter().enumerate() {
        assert_eq!(u16::from(*c), v as u16);
    }
    assert_eq!(U4::max(), U4::fifteen());
    assert_eq!(u16::from(U4::max()), 15);
}

#[test]
fn truncated_matches_the_named_indices() {
    assert_eq!(U4::truncated(16), U4::zero());
    assert_eq!(U4::truncated(20), U4::four());
    assert_eq!(U4::truncated(15), U4::max());
}
