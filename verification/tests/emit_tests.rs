use bounded_integer::big::BigValue;
use bounded_integer::emit::{dec_string, emit, ReprLiteral};
use bounded_integer::expr::RangeExpr;
use bounded_integer::parse::{parse, Declaration, Kind};
use bounded_integer::repr::{Repr, ReprSize, ReprSizeFixed};

fn lit(v: i128) -> RangeExpr {
    RangeExpr::Lit {
        pos: 0,
        value: BigValue::from_i128(v),
    }
}

fn decl(kind: Kind, low: i128, high: i128) -> Declaration {
    Declaration {
        kind,
        name: "S".to_string(),
        vis: "pub".to_string(),
        attrs: Vec::new(),
        repr: None,
        location: None,
        low: Some(lit(low)),
        high: Some(lit(high)),
        inclusive: true,
    }
}

#[test]
fn dec_string_exact() {
    assert_eq!(dec_string(0), "0");
    assert_eq!(dec_string(7), "7");
    assert_eq!(dec_string(10), "10");
    assert_eq!(dec_string(12345), "12345");
    assert_eq!(
        dec_string(u128::MAX),
        "340282366920938463463374607431768211455"
    );
}

#[test]
fn literal_rendering() {
    let l = ReprLiteral {
        negative: true,
        magnitude: 3,
        repr: Repr {
            signed: true,
            size: ReprSize::Fixed(ReprSizeFixed::Fixed8),
        },
    };
    assert_eq!(l.render(), "-3i8");
    let l = ReprLiteral {
        negative: false,
        magnitude: 65535,
        repr: Repr {
            signed: false,
            size: ReprSize::Fixed(ReprSizeFixed::Fixed16),
        },
    };
    assert_eq!(l.render(), "65535u16");
}

#[test]
fn emit_enum_three_levels() {
    // enum over 5..=7: three variants at discriminants 5, 6, 7.
    let ts = parse(decl(Kind::Enum, 5, 7)).unwrap();
    let g = emit(ts);
    assert_eq!(g.kind, Kind::Enum);
    assert_eq!(g.variants.len(), 3);
    let names: Vec<&str> = g.variants.iter().map(|v| v.name.as_str()).collect();
    assert_eq!(names, vec!["P5", "P6", "P7"]);
    let discs: Vec<String> = g.variants.iter().map(|v| v.literal.render()).collect();
    assert_eq!(discs, vec!["5u8", "6u8", "7u8"]);
}

#[test]
fn emit_enum_negative_range() {
    let ts = parse(decl(Kind::Enum, -2, 1)).unwrap();
    let g = emit(ts);
    let names: Vec<&str> = g.variants.iter().map(|v| v.name.as_str()).collect();
    assert_eq!(names, vec!["N2", "N1", "P0", "P1"]);
    let discs: Vec<String> = g.variants.iter().map(|v| v.literal.render()).collect();
    assert_eq!(discs, vec!["-2i8", "-1i8", "0i8", "1i8"]);
}

#[test]
fn emit_struct_bounds_as_literals() {
    // struct over -3..=1: no variants, bounds re-expressed as i8 literals.
    let ts = parse(decl(Kind::Struct, -3, 1)).unwrap();
    let g = emit(ts);
    assert_eq!(g.kind, Kind::Struct);
    assert!(g.variants.is_empty());
    assert_eq!(g.low.render(), "-3i8");
    assert_eq!(g.high.render(), "1i8");
    assert_eq!(g.name, "S");
    assert_eq!(g.vis, "pub");
    assert_eq!(g.location, "::bounded_integer");
}

#[test]
fn emit_keeps_explicit_repr() {
    let mut d = decl(Kind::Struct, 2, 4);
    d.repr = Some("u16".to_string());
    let ts = parse(d).unwrap();
    let g = emit(ts);
    assert_eq!(g.repr.size, ReprSize::Fixed(ReprSizeFixed::Fixed16));
    assert_eq!(g.low.render(), "2u16");
    assert_eq!(g.high.render(), "4u16");
}

#[test]
fn emit_enum_full_byte_range() {
    let ts = parse(decl(Kind::Enum, 0, 255)).unwrap();
    let g = emit(ts);
    assert_eq!(g.variants.len(), 256);
    assert_eq!(g.variants[0].name, "P0");
    assert_eq!(g.variants[255].name, "P255");
    assert_eq!(g.variants[255].literal.render(), "255u8");
}
