use bounded_integer::big::BigValue;
use bounded_integer::expr::{BinaryOp, EvalError, RangeExpr};
use bounded_integer::parse::{parse, Bound, Declaration, Kind, SpecError};
use bounded_integer::repr::{ReprSize, ReprSizeFixed};

fn lit(v: i128) -> RangeExpr {
    RangeExpr::Lit {
        pos: 0,
        value: BigValue::from_i128(v),
    }
}

fn decl(low: i128, high: i128, inclusive: bool) -> Declaration {
    Declaration {
        kind: Kind::Struct,
        name: "S".to_string(),
        vis: "pub".to_string(),
        attrs: Vec::new(),
        repr: None,
        location: None,
        low: Some(lit(low)),
        high: Some(lit(high)),
        inclusive,
    }
}

#[test]
fn parse_struct_inclusive_signed() {
    // -3..=1 resolves to (low -3, high 1) under a signed eight-bit repr.
    let ts = parse(decl(-3, 1, true)).unwrap();
    assert_eq!(ts.range.low.try_to_i128(), Some(-3));
    assert_eq!(ts.range.high.try_to_i128(), Some(1));
    assert!(ts.repr.signed);
    assert_eq!(ts.repr.size, ReprSize::Fixed(ReprSizeFixed::Fixed8));
    assert_eq!(ts.kind, Kind::Struct);
    assert_eq!(ts.name, "S");
    assert_eq!(ts.vis, "pub");
    assert_eq!(ts.location, "::bounded_integer");
}

#[test]
fn parse_enum_unsigned() {
    // 5..=7 resolves to an unsigned eight-bit repr.
    let mut d = decl(5, 7, true);
    d.kind = Kind::Enum;
    let ts = parse(d).unwrap();
    assert_eq!(ts.kind, Kind::Enum);
    assert!(!ts.repr.signed);
    assert_eq!(ts.repr.size, ReprSize::Fixed(ReprSizeFixed::Fixed8));
    assert_eq!(ts.range.low.try_to_i128(), Some(5));
    assert_eq!(ts.range.high.try_to_i128(), Some(7));
}

#[test]
fn parse_exclusive_explicit_u8() {
    // 2..5 with an explicit u8: normalized to (2, 4), which u8 holds.
    let mut d = decl(2, 5, false);
    d.repr = Some("u8".to_string());
    let ts = parse(d).unwrap();
    assert_eq!(ts.range.low.try_to_i128(), Some(2));
    assert_eq!(ts.range.high.try_to_i128(), Some(4));
    assert!(!ts.repr.signed);
    assert_eq!(ts.repr.size, ReprSize::Fixed(ReprSizeFixed::Fixed8));
}

#[test]
fn parse_sign_mismatch() {
    // An unsigned repr cannot hold a range with a negative endpoint.
    let mut d = decl(-3, 1, true);
    d.repr = Some("u8".to_string());
    assert_eq!(parse(d).unwrap_err(), SpecError::SignMismatch);
}

#[test]
fn parse_unknown_repr() {
    for bad in ["u7", "f32", "int"] {
        let mut d = decl(0, 5, true);
        d.repr = Some(bad.to_string());
        assert_eq!(parse(d).unwrap_err(), SpecError::UnknownRepr);
    }
}

#[test]
fn parse_unbounded_range() {
    let mut d = decl(0, 5, true);
    d.high = None;
    assert_eq!(parse(d).unwrap_err(), SpecError::UnboundedRange);
    let mut d = decl(0, 5, true);
    d.low = None;
    assert_eq!(parse(d).unwrap_err(), SpecError::UnboundedRange);
}

#[test]
fn parse_empty_or_inverted() {
    assert_eq!(parse(decl(5, 5, true)).unwrap_err(), SpecError::EmptyOrInvertedRange);
    assert_eq!(parse(decl(5, 3, true)).unwrap_err(), SpecError::EmptyOrInvertedRange);
    // Exclusive 2..3 normalizes to (2, 2), which is rejected too.
    assert_eq!(parse(decl(2, 3, false)).unwrap_err(), SpecError::EmptyOrInvertedRange);
}

#[test]
fn parse_repr_too_narrow() {
    let mut d = decl(2, 300, true);
    d.repr = Some("u8".to_string());
    assert_eq!(
        parse(d).unwrap_err(),
        SpecError::ReprTooNarrow { bound: Bound::High }
    );
    let mut d = decl(-300, 0, true);
    d.repr = Some("i8".to_string());
    assert_eq!(
        parse(d).unwrap_err(),
        SpecError::ReprTooNarrow { bound: Bound::Low }
    );
}

#[test]
fn parse_pointer_repr_skips_bound_checks() {
    // The platform word has no generation-time bounds; only the sign is
    // checked.
    let mut d = decl(0, 300, true);
    d.repr = Some("usize".to_string());
    let ts = parse(d).unwrap();
    assert_eq!(ts.repr.size, ReprSize::Pointer);
    let mut d = decl(-1, 300, true);
    d.repr = Some("usize".to_string());
    assert_eq!(parse(d).unwrap_err(), SpecError::SignMismatch);
    let mut d = decl(-1, 300, true);
    d.repr = Some("isize".to_string());
    assert!(parse(d).is_ok());
}

#[test]
fn parse_range_too_wide() {
    assert_eq!(parse(decl(i128::MIN, 0, true)).unwrap_err(), SpecError::RangeTooWide);
}

#[test]
fn parse_eval_error_names_the_bound() {
    let div_zero = RangeExpr::Binary {
        pos: 40,
        op: BinaryOp::Div,
        left: Box::new(lit(1)),
        right: Box::new(lit(0)),
    };
    let mut d = decl(0, 5, true);
    d.low = Some(div_zero);
    assert_eq!(
        parse(d).unwrap_err(),
        SpecError::Eval {
            bound: Bound::Low,
            error: EvalError::DivisionByZero { pos: 40 },
        }
    );
    let mut d = decl(0, 5, true);
    d.high = Some(RangeExpr::Unsupported { pos: 41 });
    assert_eq!(
        parse(d).unwrap_err(),
        SpecError::Eval {
            bound: Bound::High,
            error: EvalError::UnsupportedExpression { pos: 41 },
        }
    );
}

#[test]
fn parse_evaluates_endpoint_expressions() {
    // 1-4 .. 2*8 resolves to (-3, 16).
    let mut d = decl(0, 0, true);
    d.low = Some(RangeExpr::Binary {
        pos: 0,
        op: BinaryOp::Sub,
        left: Box::new(lit(1)),
        right: Box::new(lit(4)),
    });
    d.high = Some(RangeExpr::Binary {
        pos: 0,
        op: BinaryOp::Mul,
        left: Box::new(lit(2)),
        right: Box::new(lit(8)),
    });
    let ts = parse(d).unwrap();
    assert_eq!(ts.range.low.try_to_i128(), Some(-3));
    assert_eq!(ts.range.high.try_to_i128(), Some(16));
    assert!(ts.repr.signed);
    assert_eq!(ts.repr.size, ReprSize::Fixed(ReprSizeFixed::Fixed8));
}

#[test]
fn parse_passes_attributes_and_location_through() {
    let mut d = decl(0, 5, true);
    d.attrs = vec!["#[derive(Default)]".to_string()];
    d.location = Some("path::to::bounded_integer".to_string());
    let ts = parse(d).unwrap();
    assert_eq!(ts.attrs, vec!["#[derive(Default)]".to_string()]);
    assert_eq!(ts.location, "path::to::bounded_integer");
}
