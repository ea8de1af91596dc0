use bounded_integer::runtime::{BoundedI8, BoundedInteger, BoundedU8};

#[test]
fn round_trip_inside_the_range() {
    // Every value inside the range converts to its representation and back
    // unchanged.
    for v in -3..=1i8 {
        let b = BoundedI8::from_representation(-3, 1, v).unwrap();
        assert_eq!(b.to_representation(), v);
        let again = BoundedI8::from_representation(-3, 1, b.to_representation()).unwrap();
        assert_eq!(again, b);
    }
    for v in 2..=4u8 {
        let b = BoundedU8::from_representation(2, 4, v).unwrap();
        assert_eq!(b.to_representation(), v);
    }
}

#[test]
fn boundary_acceptance_and_rejection() {
    assert!(BoundedI8::from_representation(-3, 1, -4).is_none());
    assert!(BoundedI8::from_representation(-3, 1, 2).is_none());
    assert_eq!(
        BoundedI8::from_representation(-3, 1, -3)
            .unwrap()
            .to_representation(),
        -3
    );
    assert_eq!(
        BoundedI8::from_representation(-3, 1, 1)
            .unwrap()
            .to_representation(),
        1
    );
    assert!(BoundedU8::from_representation(2, 4, 1).is_none());
    assert!(BoundedU8::from_representation(2, 4, 5).is_none());
    assert!(BoundedU8::from_representation(2, 4, 2).is_some());
    assert!(BoundedU8::from_representation(2, 4, 4).is_some());
}

#[test]
fn min_and_max_accessors() {
    let b = BoundedI8::from_representation(-3, 1, 0).unwrap();
    assert_eq!(b.min_value(), -3);
    assert_eq!(b.max_value(), 1);
}

#[test]
fn scenario_minus_three_to_one() {
    // Declared range -3..=1: adding 5 to 1 clamps to the high bound, and
    // subtracting 1 from -3 has no checked result.
    let one = BoundedI8::from_representation(-3, 1, 1).unwrap();
    assert_eq!(one.saturating_add(5).to_representation(), 1);
    let low = BoundedI8::from_representation(-3, 1, -3).unwrap();
    assert!(low.checked_sub(1).is_none());
    assert_eq!(low.saturating_sub(1).to_representation(), -3);
}

#[test]
fn checked_and_saturating_agree() {
    // Wherever the checked form succeeds the saturating form returns the
    // same value; wherever it fails the saturating form clamps by the sign
    // of the other operand.
    for v in -3..=1i8 {
        let b = BoundedI8::from_representation(-3, 1, v).unwrap();
        for o in -128..=127i8 {
            match b.checked_add(o) {
                Some(s) => assert_eq!(s.to_representation(), b.saturating_add(o).to_representation()),
                None => {
                    let clamp = if o >= 0 { 1 } else { -3 };
                    assert_eq!(b.saturating_add(o).to_representation(), clamp);
                }
            }
            match b.checked_sub(o) {
                Some(s) => assert_eq!(s.to_representation(), b.saturating_sub(o).to_representation()),
                None => {
                    let clamp = if o < 0 { 1 } else { -3 };
                    assert_eq!(b.saturating_sub(o).to_representation(), clamp);
                }
            }
        }
    }
}

#[test]
fn native_overflow_collapses_to_absent() {
    // The sum overflows the machine representation before it reaches the
    // declared bound; both failures look the same.
    let b = BoundedI8::from_representation(-3, 1, 1).unwrap();
    assert!(b.checked_add(127).is_none());
    assert_eq!(b.saturating_add(127).to_representation(), 1);
    let lo = BoundedI8::from_representation(-128, 127, -128).unwrap();
    assert!(lo.checked_sub(1).is_none());
    assert_eq!(lo.saturating_sub(1).to_representation(), -128);
    let u = BoundedU8::from_representation(0, 255, 250).unwrap();
    assert!(u.checked_add(10).is_none());
    assert_eq!(u.saturating_add(10).to_representation(), 255);
    assert!(u.checked_sub(255).is_none());
    assert_eq!(u.saturating_sub(255).to_representation(), 0);
}

#[test]
fn checked_results_stay_inside_the_range() {
    let b = BoundedU8::from_representation(2, 4, 3).unwrap();
    assert_eq!(b.checked_add(1).unwrap().to_representation(), 4);
    assert!(b.checked_add(2).is_none());
    assert_eq!(b.checked_sub(1).unwrap().to_representation(), 2);
    assert!(b.checked_sub(2).is_none());
}
