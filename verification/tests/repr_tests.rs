use bounded_integer::big::BigValue;
use bounded_integer::repr::{Repr, ReprSize, ReprSizeFixed};

fn select(low: i128, high: i128) -> Option<Repr> {
    Repr::smallest_repr(&BigValue::from_i128(low), &BigValue::from_i128(high))
}

fn fixed(signed: bool, sz: ReprSizeFixed) -> Repr {
    Repr {
        signed,
        size: ReprSize::Fixed(sz),
    }
}

#[test]
fn from_bits_picks_the_narrowest_width() {
    assert_eq!(ReprSizeFixed::from_bits(0), Some(ReprSizeFixed::Fixed8));
    assert_eq!(ReprSizeFixed::from_bits(1), Some(ReprSizeFixed::Fixed8));
    assert_eq!(ReprSizeFixed::from_bits(8), Some(ReprSizeFixed::Fixed8));
    assert_eq!(ReprSizeFixed::from_bits(9), Some(ReprSizeFixed::Fixed16));
    assert_eq!(ReprSizeFixed::from_bits(16), Some(ReprSizeFixed::Fixed16));
    assert_eq!(ReprSizeFixed::from_bits(17), Some(ReprSizeFixed::Fixed32));
    assert_eq!(ReprSizeFixed::from_bits(32), Some(ReprSizeFixed::Fixed32));
    assert_eq!(ReprSizeFixed::from_bits(33), Some(ReprSizeFixed::Fixed64));
    assert_eq!(ReprSizeFixed::from_bits(64), Some(ReprSizeFixed::Fixed64));
    assert_eq!(ReprSizeFixed::from_bits(65), Some(ReprSizeFixed::Fixed128));
    assert_eq!(ReprSizeFixed::from_bits(128), Some(ReprSizeFixed::Fixed128));
    assert_eq!(ReprSizeFixed::from_bits(129), None);
    assert_eq!(ReprSizeFixed::from_bits(u64::MAX), None);
}

#[test]
fn select_signed_small_range() {
    // -3..=1 asks for a signed eight-bit representation.
    assert_eq!(select(-3, 1), Some(fixed(true, ReprSizeFixed::Fixed8)));
}

#[test]
fn select_unsigned_small_range() {
    // 5..=7 asks for an unsigned eight-bit representation.
    assert_eq!(select(5, 7), Some(fixed(false, ReprSizeFixed::Fixed8)));
}

#[test]
fn select_unsigned_boundaries() {
    assert_eq!(select(0, 255), Some(fixed(false, ReprSizeFixed::Fixed8)));
    assert_eq!(select(0, 256), Some(fixed(false, ReprSizeFixed::Fixed16)));
    assert_eq!(select(0, 65535), Some(fixed(false, ReprSizeFixed::Fixed16)));
    assert_eq!(select(0, 65536), Some(fixed(false, ReprSizeFixed::Fixed32)));
    assert_eq!(
        select(0, u64::MAX as i128),
        Some(fixed(false, ReprSizeFixed::Fixed64))
    );
    assert_eq!(
        select(0, u64::MAX as i128 + 1),
        Some(fixed(false, ReprSizeFixed::Fixed128))
    );
}

#[test]
fn select_signed_boundaries() {
    assert_eq!(select(-127, 100), Some(fixed(true, ReprSizeFixed::Fixed8)));
    assert_eq!(select(-3, 127), Some(fixed(true, ReprSizeFixed::Fixed8)));
    assert_eq!(select(-3, 128), Some(fixed(true, ReprSizeFixed::Fixed16)));
    assert_eq!(select(-129, 0), Some(fixed(true, ReprSizeFixed::Fixed16)));
    // The rule takes one bit over each magnitude's bit length, so a low
    // bound exactly at a native minimum rounds one width up.
    assert_eq!(select(-128, 0), Some(fixed(true, ReprSizeFixed::Fixed16)));
}

#[test]
fn select_too_wide() {
    assert_eq!(select(i128::MIN, 0), None);
    // A negative low bound with a high bound of 128 magnitude bits asks for
    // 129 bits of signed width.
    assert_eq!(
        Repr::smallest_repr(
            &BigValue::from_i128(-1),
            &BigValue::from_u128(1u128 << 127)
        ),
        None
    );
    assert_eq!(
        select(i128::MIN + 1, 0),
        Some(fixed(true, ReprSizeFixed::Fixed128))
    );
}

#[test]
fn native_bounds() {
    let i8r = fixed(true, ReprSizeFixed::Fixed8);
    assert_eq!(i8r.minimum().unwrap().try_to_i128(), Some(-128));
    assert_eq!(i8r.maximum().unwrap().try_to_i128(), Some(127));
    let u128r = fixed(false, ReprSizeFixed::Fixed128);
    assert_eq!(u128r.minimum().unwrap().try_to_u128(), Some(0));
    assert_eq!(u128r.maximum().unwrap().try_to_u128(), Some(u128::MAX));
    let usizer = Repr {
        signed: false,
        size: ReprSize::Pointer,
    };
    assert!(usizer.minimum().is_none());
    assert!(usizer.maximum().is_none());
}

#[test]
fn repr_names() {
    assert_eq!(fixed(true, ReprSizeFixed::Fixed8).name(), "i8");
    assert_eq!(fixed(false, ReprSizeFixed::Fixed128).name(), "u128");
    assert_eq!(
        Repr {
            signed: true,
            size: ReprSize::Pointer
        }
        .name(),
        "isize"
    );
}

#[test]
fn repr_from_name_supported() {
    for (name, signed, size) in [
        ("i8", true, ReprSize::Fixed(ReprSizeFixed::Fixed8)),
        ("i16", true, ReprSize::Fixed(ReprSizeFixed::Fixed16)),
        ("i32", true, ReprSize::Fixed(ReprSizeFixed::Fixed32)),
        ("i64", true, ReprSize::Fixed(ReprSizeFixed::Fixed64)),
        ("i128", true, ReprSize::Fixed(ReprSizeFixed::Fixed128)),
        ("isize", true, ReprSize::Pointer),
        ("u8", false, ReprSize::Fixed(ReprSizeFixed::Fixed8)),
        ("u16", false, ReprSize::Fixed(ReprSizeFixed::Fixed16)),
        ("u32", false, ReprSize::Fixed(ReprSizeFixed::Fixed32)),
        ("u64", false, ReprSize::Fixed(ReprSizeFixed::Fixed64)),
        ("u128", false, ReprSize::Fixed(ReprSizeFixed::Fixed128)),
        ("usize", false, ReprSize::Pointer),
    ] {
        let r = Repr::from_name(&name.to_string()).unwrap();
        assert_eq!(r.signed, signed);
        assert_eq!(r.size, size);
    }
}

#[test]
fn repr_from_name_unknown() {
    for name in ["u7", "f32", "int", "", "i", "u256", "size"] {
        assert!(Repr::from_name(&name.to_string()).is_none());
    }
}

#[test]
fn big_value_round_trips() {
    for v in [0i128, 1, -1, 255, 256, -256, i128::MAX, i128::MIN] {
        assert_eq!(BigValue::from_i128(v).try_to_i128(), Some(v));
    }
    for v in [0u128, 255, 256, u128::MAX] {
        assert_eq!(BigValue::from_u128(v).try_to_u128(), Some(v));
    }
    assert_eq!(BigValue::from_u128(u128::MAX).try_to_i128(), None);
    assert_eq!(BigValue::from_i128(-1).try_to_u128(), None);
}

#[test]
fn negative_zero_is_zero() {
    // A negative sign over an empty magnitude still denotes zero, so the
    // selection treats the range as non-negative.
    let neg_zero = BigValue {
        negative: true,
        magnitude: Vec::new(),
    };
    assert_eq!(neg_zero.try_to_i128(), Some(0));
    assert_eq!(
        Repr::smallest_repr(&neg_zero, &BigValue::from_i128(5)),
        Some(fixed(false, ReprSizeFixed::Fixed8))
    );
}
