//! Emission of a resolved specification.
//!
//! The emitter turns a [`TypeSpec`] into a description of the generated
//! type: the passthrough fields, the bounds re-expressed as representation
//! literals, and — for the enumerated kind — one variant per integer of the
//! range, its discriminant literal and its name. Splicing this description
//! into a host program is the caller's concern.

use crate::big::{big_add, le_bytes_val, BigValue};
use crate::parse::{Kind, TypeSpec};
use crate::repr::{Repr, ReprSize};
use vstd::prelude::*;
use vstd::string::StringExecFns;

verus! {

/// The character of a single decimal digit.
pub open spec fn digit_char(d: nat) -> char {
    if d == 0 {
        '0'
    } else if d == 1 {
        '1'
    } else if d == 2 {
        '2'
    } else if d == 3 {
        '3'
    } else if d == 4 {
        '4'
    } else if d == 5 {
        '5'
    } else if d == 6 {
        '6'
    } else if d == 7 {
        '7'
    } else if d == 8 {
        '8'
    } else {
        '9'
    }
}

/// The decimal rendering of a non-negative integer, most significant digit
/// first, without leading zeros.
pub open spec fn dec_spec(n: nat) -> Seq<char>
    decreases n,
{
    if n < 10 {
        seq![digit_char(n)]
    } else {
        dec_spec(n / 10).push(digit_char(n % 10))
    }
}

/// The characters of a digit string read last to first.
pub open spec fn rev_digit_chars(s: Seq<u8>) -> Seq<char>
    decreases s.len(),
{
    if s.len() == 0 {
        Seq::empty()
    } else {
        seq![digit_char(s.last() as nat)] + rev_digit_chars(s.drop_last())
    }
}

/// A single decimal digit as a string.
fn digit_str(d: u8) -> (r: &'static str)
    requires
        d < 10,
    ensures
        r@ == seq![digit_char(d as nat)],
{
    let s: &'static str = match d {
        0 => "0",
        1 => "1",
        2 => "2",
        3 => "3",
        4 => "4",
        5 => "5",
        6 => "6",
        7 => "7",
        8 => "8",
        _ => "9",
    };
    proof {
        reveal_strlit("0");
        reveal_strlit("1");
        reveal_strlit("2");
        reveal_strlit("3");
        reveal_strlit("4");
        reveal_strlit("5");
        reveal_strlit("6");
        reveal_strlit("7");
        reveal_strlit("8");
        reveal_strlit("9");
        assert(s@ =~= seq![digit_char(d as nat)]);
    }
    s
}

/// Renders a non-negative integer in decimal.
pub fn dec_string(n: u128) -> (s: String)
    ensures
        s@ == dec_spec(n as nat),
{
    let mut digits: Vec<u8> = Vec::new();
    let mut m: u128 = n;
    if n == 0 {
        let s = String::from_str("0");
        proof {
            reveal_strlit("0");
            assert(s@ =~= dec_spec(0));
        }
        return s;
    }
    proof {
        assert(dec_spec(n as nat) =~= dec_spec(n as nat) + rev_digit_chars(digits@));
    }
    while m > 0
        invariant
            dec_spec(n as nat) == if m == 0 {
                rev_digit_chars(digits@)
            } else {
                dec_spec(m as nat) + rev_digit_chars(digits@)
            },
            forall|k: int| 0 <= k < digits@.len() ==> digits@[k] < 10,
        decreases m,
    {
        let d: u8 = (m % 10) as u8;
        proof {
            let ghost old_digits = digits@;
            assert(old_digits.push(d).drop_last() =~= old_digits);
            assert(old_digits.push(d).last() == d);
            if m < 10 {
                assert(dec_spec(m as nat) =~= seq![digit_char(d as nat)]);
                assert(seq![digit_char(d as nat)] + rev_digit_chars(old_digits)
                    =~= rev_digit_chars(old_digits.push(d)));
            } else {
                assert(dec_spec(m as nat) == dec_spec((m as nat) / 10).push(
                    digit_char((m as nat) % 10),
                ));
                assert(dec_spec((m as nat) / 10).push(digit_char(d as nat)) + rev_digit_chars(
                    old_digits,
                ) =~= dec_spec((m as nat) / 10) + (seq![digit_char(d as nat)] + rev_digit_chars(
                    old_digits,
                )));
            }
        }
        digits.push(d);
        m = m / 10;
    }
    let mut s = String::new();
    let mut i: usize = digits.len();
    proof {
        assert(digits@.subrange(0, digits@.len() as int) =~= digits@);
        assert(s@ + rev_digit_chars(digits@) =~= rev_digit_chars(digits@));
    }
    while i > 0
        invariant
            i <= digits@.len(),
            forall|k: int| 0 <= k < digits@.len() ==> digits@[k] < 10,
            s@ + rev_digit_chars(digits@.subrange(0, i as int)) == dec_spec(n as nat),
        decreases i,
    {
        let d = digits[i - 1];
        let ds = digit_str(d);
        proof {
            let pre = digits@.subrange(0, i as int);
            assert(pre.drop_last() =~= digits@.subrange(0, i as int - 1));
            assert(pre.last() == d);
            assert((s@ + ds@) + rev_digit_chars(digits@.subrange(0, i as int - 1)) =~= s@ + (
            seq![digit_char(d as nat)] + rev_digit_chars(digits@.subrange(0, i as int - 1))));
        }
        s.append(ds);
        i = i - 1;
    }
    proof {
        assert(digits@.subrange(0, 0) =~= Seq::<u8>::empty());
        assert(s@ + rev_digit_chars(Seq::<u8>::empty()) =~= s@);
    }
    s
}

/// A bound or discriminant re-expressed as a literal of the chosen
/// representation: a sign, a decimal magnitude, and the representation
/// suffix.
#[derive(Clone, Debug)]
pub struct ReprLiteral {
    /// True when the literal denotes the negation of the magnitude.
    pub negative: bool,
    /// The magnitude.
    pub magnitude: u128,
    /// The representation the literal is suffixed with.
    pub repr: Repr,
}

impl ReprLiteral {
    /// The integer the literal denotes.
    pub open spec fn lit_int(self) -> int {
        if self.negative {
            -(self.magnitude as int)
        } else {
            self.magnitude as int
        }
    }

    /// The literal's text: sign, decimal magnitude, representation suffix.
    pub open spec fn render_spec(self) -> Seq<char> {
        (if self.negative {
            seq!['-']
        } else {
            Seq::empty()
        }) + dec_spec(self.magnitude as nat) + self.repr.name_spec()
    }

    /// Renders the literal.
    pub fn render(&self) -> (s: String)
        ensures
            s@ == self.render_spec(),
    {
        let mut s = if self.negative {
            let m = String::from_str("-");
            proof {
                reveal_strlit("-");
                assert(m@ =~= seq!['-']);
            }
            m
        } else {
            String::new()
        };
        let digits = dec_string(self.magnitude);
        s.append(digits.as_str());
        s.append(self.repr.name());
        proof {
            assert(s@ =~= self.render_spec());
        }
        s
    }
}

/// Converts a resolved bound into a representation literal.
fn to_repr_literal(v: &BigValue, repr: Repr) -> (r: ReprLiteral)
    requires
        le_bytes_val(v.magnitude@) <= u128::MAX as nat,
    ensures
        r.lit_int() == v.as_int(),
        r.repr == repr,
        r.negative == (v.as_int() < 0),
{
    let mag: u128 = match v.magnitude_u128() {
        Some(m) => m,
        None => {
            proof {
                assert(false);
            }
            0
        },
    };
    ReprLiteral { negative: v.is_negative(), magnitude: mag, repr }
}

/// The name of the enumerated variant for a value: its decimal magnitude
/// under `P` for non-negative values and `N` for negative ones.
pub open spec fn variant_name_spec(v: int) -> Seq<char> {
    if v >= 0 {
        seq!['P'] + dec_spec(v as nat)
    } else {
        seq!['N'] + dec_spec((-v) as nat)
    }
}

/// One enumerated constant of a generated enum kind.
#[derive(Clone, Debug)]
pub struct Variant {
    /// The variant's name.
    pub name: String,
    /// The discriminant, as a representation literal.
    pub literal: ReprLiteral,
}

/// Names the variant of a discriminant literal.
fn variant_name(lit: &ReprLiteral) -> (s: String)
    ensures
        s@ == variant_name_spec(lit.lit_int()),
{
    let digits = dec_string(lit.magnitude);
    let mut s = if lit.negative && lit.magnitude > 0 {
        let m = String::from_str("N");
        proof {
            reveal_strlit("N");
            assert(m@ =~= seq!['N']);
        }
        m
    } else {
        let m = String::from_str("P");
        proof {
            reveal_strlit("P");
            assert(m@ =~= seq!['P']);
        }
        m
    };
    s.append(digits.as_str());
    proof {
        assert(s@ =~= variant_name_spec(lit.lit_int()));
    }
    s
}

/// The description of a generated type: the resolved fields passed through,
/// the bounds as representation literals, and the variant list of an
/// enumerated kind.
#[derive(Debug)]
pub struct GeneratedType {
    /// The declared kind.
    pub kind: Kind,
    /// The name of the generated type.
    pub name: String,
    /// The declared visibility, passed through unread.
    pub vis: String,
    /// The declared attributes, passed through unread.
    pub attrs: Vec<String>,
    /// The resolved representation.
    pub repr: Repr,
    /// The low bound as a representation literal.
    pub low: ReprLiteral,
    /// The high bound as a representation literal.
    pub high: ReprLiteral,
    /// One variant per integer of the range, low to high; empty for the
    /// record-like kind.
    pub variants: Vec<Variant>,
    /// The library location the emitted code refers to.
    pub location: String,
}

/// Emits the description of the generated type for a resolved specification.
///
/// Both bounds are re-expressed as literals of the chosen representation.
/// For the enumerated kind the variants are exactly the integers of the
/// closed range, in order, each under its `P`- or `N`-prefixed decimal name.
/// A platform-word representation has no generation-time bounds, so its
/// endpoints are required to fit the widest literal the emitter writes.
pub fn emit(ts: TypeSpec) -> (g: GeneratedType)
    requires
        ts.wf(),
        ts.repr.size is Pointer ==> -0x80000000000000000000000000000000
            <= ts.range.low.as_int() && ts.range.high.as_int()
            <= 0xffffffffffffffffffffffffffffffff,
    ensures
        g.kind == ts.kind,
        g.name == ts.name,
        g.vis == ts.vis,
        g.attrs == ts.attrs,
        g.repr == ts.repr,
        g.location == ts.location,
        g.low.lit_int() == ts.range.low.as_int(),
        g.low.repr == ts.repr,
        g.high.lit_int() == ts.range.high.as_int(),
        g.high.repr == ts.repr,
        ts.kind == Kind::Struct ==> g.variants@.len() == 0,
        ts.kind == Kind::Enum ==> g.variants@.len() == ts.range.high.as_int()
            - ts.range.low.as_int() + 1,
        ts.kind == Kind::Enum ==> forall|i: int|
            0 <= i < g.variants@.len() ==> {
                &&& (#[trigger] g.variants@[i]).literal.lit_int() == ts.range.low.as_int() + i
                &&& g.variants@[i].literal.repr == ts.repr
                &&& g.variants@[i].name@ == variant_name_spec(ts.range.low.as_int() + i)
            },
{
    let TypeSpec { kind, name, vis, attrs, repr, range, location } = ts;
    proof {
        lemma_bounds_fit_u128(&ts);
    }
    let low_lit = to_repr_literal(&range.low, repr);
    let high_lit = to_repr_literal(&range.high, repr);
    let mut variants: Vec<Variant> = Vec::new();
    match kind {
        Kind::Struct => {},
        Kind::Enum => {
            let one = BigValue::from_u128(1);
            let mut current = range.low.clone_value();
            loop
                invariant
                    range.low.as_int() <= current.as_int() <= range.high.as_int() + 1,
                    variants@.len() == current.as_int() - range.low.as_int(),
                    le_bytes_val(range.low.magnitude@) <= u128::MAX as nat,
                    le_bytes_val(range.high.magnitude@) <= u128::MAX as nat,
                    range.low.as_int() < range.high.as_int(),
                    one.as_int() == 1,
                    forall|i: int|
                        0 <= i < variants@.len() ==> {
                            &&& (#[trigger] variants@[i]).literal.lit_int() == range.low.as_int()
                                + i
                            &&& variants@[i].literal.repr == repr
                            &&& variants@[i].name@ == variant_name_spec(range.low.as_int() + i)
                        },
                ensures
                    variants@.len() == range.high.as_int() - range.low.as_int() + 1,
                    forall|i: int|
                        0 <= i < variants@.len() ==> {
                            &&& (#[trigger] variants@[i]).literal.lit_int() == range.low.as_int()
                                + i
                            &&& variants@[i].literal.repr == repr
                            &&& variants@[i].name@ == variant_name_spec(range.low.as_int() + i)
                        },
                decreases range.high.as_int() + 1 - current.as_int(),
            {
                if crate::big::big_lt(&range.high, &current) {
                    break ;
                }
                proof {
                    lemma_between_fits_u128(&range.low, &range.high, &current);
                }
                let lit = to_repr_literal(&current, repr);
                let vname = variant_name(&lit);
                variants.push(Variant { name: vname, literal: lit });
                current = big_add(&current, &one);
            }
        },
    }
    GeneratedType {
        kind,
        name,
        vis,
        attrs,
        repr,
        low: low_lit,
        high: high_lit,
        variants,
        location,
    }
}

/// The magnitudes of well-formed bounds fit the widest literal: a fixed
/// representation pins them inside its native range, and the platform word
/// carries the same limits as an explicit precondition.
proof fn lemma_bounds_fit_u128(ts: &TypeSpec)
    requires
        ts.wf(),
        ts.repr.size is Pointer ==> -0x80000000000000000000000000000000
            <= ts.range.low.as_int() && ts.range.high.as_int()
            <= 0xffffffffffffffffffffffffffffffff,
    ensures
        le_bytes_val(ts.range.low.magnitude@) <= u128::MAX as nat,
        le_bytes_val(ts.range.high.magnitude@) <= u128::MAX as nat,
{
    let lo = ts.range.low.as_int();
    let hi = ts.range.high.as_int();
    assert(-0x80000000000000000000000000000000 <= lo && hi
        <= 0xffffffffffffffffffffffffffffffff);
    assert(le_bytes_val(ts.range.low.magnitude@) == if lo < 0 {
        -lo
    } else {
        lo
    });
    assert(le_bytes_val(ts.range.high.magnitude@) == if hi < 0 {
        -hi
    } else {
        hi
    });
}

/// A value between two bounds whose magnitudes fit a `u128` fits as well.
proof fn lemma_between_fits_u128(low: &BigValue, high: &BigValue, v: &BigValue)
    requires
        le_bytes_val(low.magnitude@) <= u128::MAX as nat,
        le_bytes_val(high.magnitude@) <= u128::MAX as nat,
        low.as_int() <= v.as_int() <= high.as_int(),
    ensures
        le_bytes_val(v.magnitude@) <= u128::MAX as nat,
{
    assert(le_bytes_val(v.magnitude@) == if v.as_int() < 0 {
        -v.as_int()
    } else {
        v.as_int()
    });
    assert(le_bytes_val(low.magnitude@) >= if low.as_int() < 0 {
        -low.as_int()
    } else {
        low.as_int()
    });
}

} // verus!
