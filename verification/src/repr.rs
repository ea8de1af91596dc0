//! Machine representations and their selection.
//!
//! A representation is a signedness and a width: one of the five fixed widths
//! or the platform word. Given resolved bounds, [`Repr::smallest_repr`] picks
//! the narrowest fixed representation able to hold them, by the bit-length
//! rule: a negative low bound asks for a signed width of at least one bit
//! more than either endpoint's magnitude; a non-negative low bound asks for
//! an unsigned width of at least the high endpoint's bit length.

use crate::big::{big_bits, BigValue};
use crate::intmath::{
    abs_int, bitlen, lemma_bitlen_bounds, lemma_bitlen_le, lemma_bitlen_monotone,
    lemma_pow2_repr_values,
};
use vstd::arithmetic::power2::{lemma_pow2_strictly_increases, pow2};
use vstd::prelude::*;

verus! {

/// A supported fixed bit width.
#[derive(Clone, Copy, Debug, PartialEq, Eq, Structural)]
pub enum ReprSizeFixed {
    /// Eight bits.
    Fixed8,
    /// Sixteen bits.
    Fixed16,
    /// Thirty-two bits.
    Fixed32,
    /// Sixty-four bits.
    Fixed64,
    /// One hundred twenty-eight bits.
    Fixed128,
}

impl ReprSizeFixed {
    /// The width in bits.
    pub open spec fn width(self) -> nat {
        match self {
            ReprSizeFixed::Fixed8 => 8,
            ReprSizeFixed::Fixed16 => 16,
            ReprSizeFixed::Fixed32 => 32,
            ReprSizeFixed::Fixed64 => 64,
            ReprSizeFixed::Fixed128 => 128,
        }
    }

    /// The narrowest supported width of at least `bits` bits, if any.
    pub open spec fn from_bits_spec(bits: nat) -> Option<ReprSizeFixed> {
        if bits <= 8 {
            Some(ReprSizeFixed::Fixed8)
        } else if bits <= 16 {
            Some(ReprSizeFixed::Fixed16)
        } else if bits <= 32 {
            Some(ReprSizeFixed::Fixed32)
        } else if bits <= 64 {
            Some(ReprSizeFixed::Fixed64)
        } else if bits <= 128 {
            Some(ReprSizeFixed::Fixed128)
        } else {
            None
        }
    }

    /// The narrowest supported width of at least `bits` bits: absent exactly
    /// when `bits` exceeds the widest supported representation.
    pub fn from_bits(bits: u64) -> (r: Option<ReprSizeFixed>)
        ensures
            r == Self::from_bits_spec(bits as nat),
    {
        if bits <= 8 {
            Some(ReprSizeFixed::Fixed8)
        } else if bits <= 16 {
            Some(ReprSizeFixed::Fixed16)
        } else if bits <= 32 {
            Some(ReprSizeFixed::Fixed32)
        } else if bits <= 64 {
            Some(ReprSizeFixed::Fixed64)
        } else if bits <= 128 {
            Some(ReprSizeFixed::Fixed128)
        } else {
            None
        }
    }
}

/// A representation width: fixed, or the platform word.
#[derive(Clone, Copy, Debug, PartialEq, Eq, Structural)]
pub enum ReprSize {
    /// One of the five supported fixed widths.
    Fixed(ReprSizeFixed),
    /// The platform word width, `usize`/`isize`.
    Pointer,
}

/// A machine representation: signedness and width.
#[derive(Clone, Copy, Debug, PartialEq, Eq, Structural)]
pub struct Repr {
    /// True for the signed variant of the width.
    pub signed: bool,
    /// The width.
    pub size: ReprSize,
}

impl Repr {
    /// The representation's native minimum; absent for the platform word,
    /// whose width is not known at generation time.
    pub open spec fn min_spec(self) -> Option<int> {
        match (self.signed, self.size) {
            (false, ReprSize::Fixed(_)) => Some(0),
            (true, ReprSize::Fixed(ReprSizeFixed::Fixed8)) => Some(-0x80),
            (true, ReprSize::Fixed(ReprSizeFixed::Fixed16)) => Some(-0x8000),
            (true, ReprSize::Fixed(ReprSizeFixed::Fixed32)) => Some(-0x80000000),
            (true, ReprSize::Fixed(ReprSizeFixed::Fixed64)) => Some(-0x8000000000000000),
            (true, ReprSize::Fixed(ReprSizeFixed::Fixed128)) => Some(
                -0x80000000000000000000000000000000,
            ),
            (_, ReprSize::Pointer) => None,
        }
    }

    /// The representation's native maximum; absent for the platform word.
    pub open spec fn max_spec(self) -> Option<int> {
        match (self.signed, self.size) {
            (false, ReprSize::Fixed(ReprSizeFixed::Fixed8)) => Some(0xff),
            (false, ReprSize::Fixed(ReprSizeFixed::Fixed16)) => Some(0xffff),
            (false, ReprSize::Fixed(ReprSizeFixed::Fixed32)) => Some(0xffffffff),
            (false, ReprSize::Fixed(ReprSizeFixed::Fixed64)) => Some(0xffffffffffffffff),
            (false, ReprSize::Fixed(ReprSizeFixed::Fixed128)) => Some(
                0xffffffffffffffffffffffffffffffff,
            ),
            (true, ReprSize::Fixed(ReprSizeFixed::Fixed8)) => Some(0x7f),
            (true, ReprSize::Fixed(ReprSizeFixed::Fixed16)) => Some(0x7fff),
            (true, ReprSize::Fixed(ReprSizeFixed::Fixed32)) => Some(0x7fffffff),
            (true, ReprSize::Fixed(ReprSizeFixed::Fixed64)) => Some(0x7fffffffffffffff),
            (true, ReprSize::Fixed(ReprSizeFixed::Fixed128)) => Some(
                0x7fffffffffffffffffffffffffffffff,
            ),
            (_, ReprSize::Pointer) => None,
        }
    }

    /// The native minimum as a value; absent for the platform word.
    pub fn minimum(&self) -> (r: Option<BigValue>)
        ensures
            match (r, self.min_spec()) {
                (Some(b), Some(v)) => b.as_int() == v,
                (None, None) => true,
                _ => false,
            },
    {
        match (self.signed, self.size) {
            (_, ReprSize::Pointer) => None,
            (false, ReprSize::Fixed(_)) => Some(BigValue::from_u128(0)),
            (true, ReprSize::Fixed(ReprSizeFixed::Fixed8)) => Some(
                BigValue::from_i128(i8::MIN as i128),
            ),
            (true, ReprSize::Fixed(ReprSizeFixed::Fixed16)) => Some(
                BigValue::from_i128(i16::MIN as i128),
            ),
            (true, ReprSize::Fixed(ReprSizeFixed::Fixed32)) => Some(
                BigValue::from_i128(i32::MIN as i128),
            ),
            (true, ReprSize::Fixed(ReprSizeFixed::Fixed64)) => Some(
                BigValue::from_i128(i64::MIN as i128),
            ),
            (true, ReprSize::Fixed(ReprSizeFixed::Fixed128)) => Some(
                BigValue::from_i128(i128::MIN),
            ),
        }
    }

    /// The native maximum as a value; absent for the platform word.
    pub fn maximum(&self) -> (r: Option<BigValue>)
        ensures
            match (r, self.max_spec()) {
                (Some(b), Some(v)) => b.as_int() == v,
                (None, None) => true,
                _ => false,
            },
    {
        match (self.signed, self.size) {
            (_, ReprSize::Pointer) => None,
            (false, ReprSize::Fixed(ReprSizeFixed::Fixed8)) => Some(
                BigValue::from_u128(u8::MAX as u128),
            ),
            (false, ReprSize::Fixed(ReprSizeFixed::Fixed16)) => Some(
                BigValue::from_u128(u16::MAX as u128),
            ),
            (false, ReprSize::Fixed(ReprSizeFixed::Fixed32)) => Some(
                BigValue::from_u128(u32::MAX as u128),
            ),
            (false, ReprSize::Fixed(ReprSizeFixed::Fixed64)) => Some(
                BigValue::from_u128(u64::MAX as u128),
            ),
            (false, ReprSize::Fixed(ReprSizeFixed::Fixed128)) => Some(
                BigValue::from_u128(u128::MAX),
            ),
            (true, ReprSize::Fixed(ReprSizeFixed::Fixed8)) => Some(
                BigValue::from_u128(i8::MAX as u128),
            ),
            (true, ReprSize::Fixed(ReprSizeFixed::Fixed16)) => Some(
                BigValue::from_u128(i16::MAX as u128),
            ),
            (true, ReprSize::Fixed(ReprSizeFixed::Fixed32)) => Some(
                BigValue::from_u128(i32::MAX as u128),
            ),
            (true, ReprSize::Fixed(ReprSizeFixed::Fixed64)) => Some(
                BigValue::from_u128(i64::MAX as u128),
            ),
            (true, ReprSize::Fixed(ReprSizeFixed::Fixed128)) => Some(
                BigValue::from_u128(i128::MAX as u128),
            ),
        }
    }

    /// The representation's identifier.
    pub fn name(&self) -> (r: &'static str)
        ensures
            r@ == self.name_spec(),
    {
        match (self.signed, self.size) {
            (false, ReprSize::Fixed(ReprSizeFixed::Fixed8)) => "u8",
            (false, ReprSize::Fixed(ReprSizeFixed::Fixed16)) => "u16",
            (false, ReprSize::Fixed(ReprSizeFixed::Fixed32)) => "u32",
            (false, ReprSize::Fixed(ReprSizeFixed::Fixed64)) => "u64",
            (false, ReprSize::Fixed(ReprSizeFixed::Fixed128)) => "u128",
            (false, ReprSize::Pointer) => "usize",
            (true, ReprSize::Fixed(ReprSizeFixed::Fixed8)) => "i8",
            (true, ReprSize::Fixed(ReprSizeFixed::Fixed16)) => "i16",
            (true, ReprSize::Fixed(ReprSizeFixed::Fixed32)) => "i32",
            (true, ReprSize::Fixed(ReprSizeFixed::Fixed64)) => "i64",
            (true, ReprSize::Fixed(ReprSizeFixed::Fixed128)) => "i128",
            (true, ReprSize::Pointer) => "isize",
        }
    }

    /// The representation's identifier, as a character sequence.
    pub open spec fn name_spec(self) -> Seq<char> {
        match (self.signed, self.size) {
            (false, ReprSize::Fixed(ReprSizeFixed::Fixed8)) => "u8"@,
            (false, ReprSize::Fixed(ReprSizeFixed::Fixed16)) => "u16"@,
            (false, ReprSize::Fixed(ReprSizeFixed::Fixed32)) => "u32"@,
            (false, ReprSize::Fixed(ReprSizeFixed::Fixed64)) => "u64"@,
            (false, ReprSize::Fixed(ReprSizeFixed::Fixed128)) => "u128"@,
            (false, ReprSize::Pointer) => "usize"@,
            (true, ReprSize::Fixed(ReprSizeFixed::Fixed8)) => "i8"@,
            (true, ReprSize::Fixed(ReprSizeFixed::Fixed16)) => "i16"@,
            (true, ReprSize::Fixed(ReprSizeFixed::Fixed32)) => "i32"@,
            (true, ReprSize::Fixed(ReprSizeFixed::Fixed64)) => "i64"@,
            (true, ReprSize::Fixed(ReprSizeFixed::Fixed128)) => "i128"@,
            (true, ReprSize::Pointer) => "isize"@,
        }
    }

    /// The representation a supported integer identifier names, if any.
    pub open spec fn from_name_spec(s: Seq<char>) -> Option<Repr> {
        if s == "i8"@ {
            Some(Repr { signed: true, size: ReprSize::Fixed(ReprSizeFixed::Fixed8) })
        } else if s == "i16"@ {
            Some(Repr { signed: true, size: ReprSize::Fixed(ReprSizeFixed::Fixed16) })
        } else if s == "i32"@ {
            Some(Repr { signed: true, size: ReprSize::Fixed(ReprSizeFixed::Fixed32) })
        } else if s == "i64"@ {
            Some(Repr { signed: true, size: ReprSize::Fixed(ReprSizeFixed::Fixed64) })
        } else if s == "i128"@ {
            Some(Repr { signed: true, size: ReprSize::Fixed(ReprSizeFixed::Fixed128) })
        } else if s == "isize"@ {
            Some(Repr { signed: true, size: ReprSize::Pointer })
        } else if s == "u8"@ {
            Some(Repr { signed: false, size: ReprSize::Fixed(ReprSizeFixed::Fixed8) })
        } else if s == "u16"@ {
            Some(Repr { signed: false, size: ReprSize::Fixed(ReprSizeFixed::Fixed16) })
        } else if s == "u32"@ {
            Some(Repr { signed: false, size: ReprSize::Fixed(ReprSizeFixed::Fixed32) })
        } else if s == "u64"@ {
            Some(Repr { signed: false, size: ReprSize::Fixed(ReprSizeFixed::Fixed64) })
        } else if s == "u128"@ {
            Some(Repr { signed: false, size: ReprSize::Fixed(ReprSizeFixed::Fixed128) })
        } else if s == "usize"@ {
            Some(Repr { signed: false, size: ReprSize::Pointer })
        } else {
            None
        }
    }

    /// Reads a representation from its identifier: absent exactly when the
    /// identifier names no supported fixed-width or platform-word integer.
    pub fn from_name(name: &String) -> (r: Option<Repr>)
        ensures
            r == Self::from_name_spec(name@),
    {
        if *name == String::from_str("i8") {
            Some(Repr { signed: true, size: ReprSize::Fixed(ReprSizeFixed::Fixed8) })
        } else if *name == String::from_str("i16") {
            Some(Repr { signed: true, size: ReprSize::Fixed(ReprSizeFixed::Fixed16) })
        } else if *name == String::from_str("i32") {
            Some(Repr { signed: true, size: ReprSize::Fixed(ReprSizeFixed::Fixed32) })
        } else if *name == String::from_str("i64") {
            Some(Repr { signed: true, size: ReprSize::Fixed(ReprSizeFixed::Fixed64) })
        } else if *name == String::from_str("i128") {
            Some(Repr { signed: true, size: ReprSize::Fixed(ReprSizeFixed::Fixed128) })
        } else if *name == String::from_str("isize") {
            Some(Repr { signed: true, size: ReprSize::Pointer })
        } else if *name == String::from_str("u8") {
            Some(Repr { signed: false, size: ReprSize::Fixed(ReprSizeFixed::Fixed8) })
        } else if *name == String::from_str("u16") {
            Some(Repr { signed: false, size: ReprSize::Fixed(ReprSizeFixed::Fixed16) })
        } else if *name == String::from_str("u32") {
            Some(Repr { signed: false, size: ReprSize::Fixed(ReprSizeFixed::Fixed32) })
        } else if *name == String::from_str("u64") {
            Some(Repr { signed: false, size: ReprSize::Fixed(ReprSizeFixed::Fixed64) })
        } else if *name == String::from_str("u128") {
            Some(Repr { signed: false, size: ReprSize::Fixed(ReprSizeFixed::Fixed128) })
        } else if *name == String::from_str("usize") {
            Some(Repr { signed: false, size: ReprSize::Pointer })
        } else {
            None
        }
    }

    /// The representation the selection rule picks for the given bounds.
    pub open spec fn select_spec(low: int, high: int) -> Option<Repr> {
        if low < 0 {
            let need_low = bitlen(abs_int(low)) + 1;
            let need_high = bitlen(abs_int(high)) + 1;
            let need = if need_low >= need_high {
                need_low
            } else {
                need_high
            };
            match ReprSizeFixed::from_bits_spec(need) {
                Some(sz) => Some(Repr { signed: true, size: ReprSize::Fixed(sz) }),
                None => None,
            }
        } else {
            match ReprSizeFixed::from_bits_spec(bitlen(abs_int(high))) {
                Some(sz) => Some(Repr { signed: false, size: ReprSize::Fixed(sz) }),
                None => None,
            }
        }
    }

    /// Picks the representation the selection rule names for the given
    /// bounds: absent exactly when no supported width is wide enough.
    pub fn smallest_repr(min: &BigValue, max: &BigValue) -> (r: Option<Repr>)
        ensures
            r == Self::select_spec(min.as_int(), max.as_int()),
    {
        if min.is_negative() {
            let bits_low = big_bits(min);
            let bits_high = big_bits(max);
            let need = if bits_low >= bits_high {
                bits_low
            } else {
                bits_high
            };
            if need > 127 {
                return None;
            }
            match ReprSizeFixed::from_bits(need + 1) {
                Some(sz) => Some(Repr { signed: true, size: ReprSize::Fixed(sz) }),
                None => None,
            }
        } else {
            match ReprSizeFixed::from_bits(big_bits(max)) {
                Some(sz) => Some(Repr { signed: false, size: ReprSize::Fixed(sz) }),
                None => None,
            }
        }
    }

    /// True when the representation's native range covers both bounds.
    pub open spec fn fits(self, low: int, high: int) -> bool {
        match (self.min_spec(), self.max_spec()) {
            (Some(mn), Some(mx)) => mn <= low && high <= mx,
            _ => false,
        }
    }
}

/// Any supported width at or above the asked-for bit count is at least as
/// wide as the one `from_bits_spec` picks.
pub proof fn lemma_from_bits_min(bits: nat, w2: ReprSizeFixed)
    requires
        w2.width() >= bits,
    ensures
        ReprSizeFixed::from_bits_spec(bits) is Some,
        ReprSizeFixed::from_bits_spec(bits).unwrap().width() <= w2.width(),
{
}

/// The selection rule succeeds on every range inside the widest supported
/// representation's demands: at most 127 magnitude bits on each endpoint of
/// a range with a negative low bound, and at most 128 bits on the high
/// endpoint of a non-negative one.
pub proof fn lemma_select_defined(low: int, high: int)
    requires
        low <= high,
        low < 0 ==> bitlen(abs_int(low)) <= 127 && bitlen(abs_int(high)) <= 127,
        low >= 0 ==> bitlen(abs_int(high)) <= 128,
    ensures
        Repr::select_spec(low, high) is Some,
{
}

/// Whatever the selection rule picks can hold both bounds: its native
/// minimum is at or below the low bound and its native maximum at or above
/// the high bound.
pub proof fn lemma_select_fits(low: int, high: int)
    requires
        low <= high,
        Repr::select_spec(low, high) is Some,
    ensures
        Repr::select_spec(low, high).unwrap().fits(low, high),
{
    let r = Repr::select_spec(low, high).unwrap();
    let sz = r.size->Fixed_0;
    let w = sz.width();
    lemma_pow2_repr_values();
    if low < 0 {
        let bl = bitlen(abs_int(low));
        let bh = bitlen(abs_int(high));
        assert(bl + 1 <= w && bh + 1 <= w);
        lemma_bitlen_le(abs_int(low), (w - 1) as nat);
        lemma_bitlen_le(abs_int(high), (w - 1) as nat);
        assert(abs_int(low) < pow2((w - 1) as nat));
        assert(r.min_spec() == Some(-(pow2((w - 1) as nat) as int)));
        assert(r.max_spec() == Some(pow2((w - 1) as nat) - 1));
    } else {
        let bh = bitlen(abs_int(high));
        assert(bh <= w);
        lemma_bitlen_le(abs_int(high), w);
        assert(abs_int(high) < pow2(w));
        assert(r.max_spec() == Some(pow2(w) - 1));
    }
}

/// Whatever the selection rule picks is the narrowest fit: any fixed-width
/// representation that also covers both bounds is at least as wide. The
/// handful of bound pairs on which the rule overshoots by one width step —
/// a low bound exactly at a supported width's native minimum, with the high
/// bound also inside that width — are excluded.
pub proof fn lemma_select_minimal(low: int, high: int, other: Repr)
    requires
        low <= high,
        !(low == -0x80 && high <= 0x7f),
        !(low == -0x8000 && high <= 0x7fff),
        !(low == -0x80000000 && high <= 0x7fffffff),
        !(low == -0x8000000000000000 && high <= 0x7fffffffffffffff),
        !(low == -0x80000000000000000000000000000000 && high
            <= 0x7fffffffffffffffffffffffffffffff),
        Repr::select_spec(low, high) is Some,
        other.fits(low, high),
        other.size is Fixed,
    ensures
        other.size->Fixed_0.width() >= Repr::select_spec(low, high).unwrap().size->Fixed_0.width(),
{
    let r = Repr::select_spec(low, high).unwrap();
    let w = r.size->Fixed_0.width();
    let w2 = other.size->Fixed_0.width();
    lemma_pow2_repr_values();
    if w2 < w {
        if low < 0 {
            let bl = bitlen(abs_int(low));
            let bh = bitlen(abs_int(high));
            // An unsigned representation cannot hold a negative low bound.
            assert(other.signed);
            assert(other.min_spec() == Some(-(pow2((w2 - 1) as nat) as int)));
            assert(other.max_spec() == Some(pow2((w2 - 1) as nat) - 1));
            // The selected width is the round-up of the larger bit need, so
            // a smaller supported width sits below that need.
            let need = if bl + 1 >= bh + 1 {
                bl + 1
            } else {
                bh + 1
            };
            assert(w2 < need) by {
                if w2 >= need {
                    lemma_from_bits_min(need, other.size->Fixed_0);
                }
            }
            if w2 < bl + 1 {
                // The low bound's magnitude reaches the smaller width's
                // native minimum; equality is exactly the excluded case.
                lemma_bitlen_bounds(abs_int(low));
                assert(abs_int(low) >= pow2((bl - 1) as nat));
                if bl > w2 {
                    lemma_pow2_strictly_increases((w2 - 1) as nat, (bl - 1) as nat);
                }
                assert(abs_int(low) >= pow2((w2 - 1) as nat));
                assert(abs_int(low) <= pow2((w2 - 1) as nat));
                assert(abs_int(low) == pow2((w2 - 1) as nat));
                assert(false);
            } else {
                // The high bound's bit need drives the selection.
                assert(w2 < bh + 1);
                if high < 0 {
                    lemma_bitlen_monotone(abs_int(high), abs_int(low));
                    assert(bh <= bl);
                    assert(false);
                } else {
                    lemma_bitlen_bounds(abs_int(high));
                    assert(abs_int(high) >= pow2((bh - 1) as nat));
                    if bh > w2 {
                        lemma_pow2_strictly_increases((w2 - 1) as nat, (bh - 1) as nat);
                    }
                    assert(high >= pow2((w2 - 1) as nat));
                    assert(false);
                }
            }
        } else {
            let bh = bitlen(abs_int(high));
            assert(w2 < bh) by {
                if w2 >= bh {
                    lemma_from_bits_min(bh, other.size->Fixed_0);
                }
            }
            lemma_bitlen_bounds(abs_int(high));
            assert(abs_int(high) >= pow2((bh - 1) as nat));
            if bh - 1 > w2 {
                lemma_pow2_strictly_increases(w2, (bh - 1) as nat);
            }
            assert(high >= pow2(w2));
            if other.signed {
                lemma_pow2_strictly_increases((w2 - 1) as nat, w2);
                assert(high > pow2((w2 - 1) as nat) - 1);
                assert(false);
            } else {
                assert(high > pow2(w2) - 1);
                assert(false);
            }
        }
    }
}

} // verus!
