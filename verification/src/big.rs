//! Arbitrary-precision integer values.
//!
//! A [`BigValue`] holds a sign and a little-endian byte magnitude, so its
//! mathematical value is a defined function of its fields. The arithmetic
//! itself is done by `num_bigint` behind small trusted wrappers; everything
//! that reads or builds a `BigValue` out of plain machine integers is
//! verified here.

use crate::intmath::{
    abs_int, and_bits, bitlen, lemma_bitlen_from_bound, lemma_pow2_repr_values, lemma_pow256_pow2,
    or_bits, pow256, trunc_div, trunc_rem, xor_bits,
};
use vstd::arithmetic::power2::pow2;
use vstd::prelude::*;

verus! {

/// An integer of unbounded magnitude: a sign and little-endian bytes.
/// The representation is not required to be canonical; trailing zero bytes
/// and a negative zero denote the same value.
#[derive(Clone, Debug)]
pub struct BigValue {
    /// True when the value is the negation of the magnitude.
    pub negative: bool,
    /// Little-endian base-256 digits of the magnitude.
    pub magnitude: Vec<u8>,
}

/// Value of a little-endian byte string.
pub open spec fn le_bytes_val(s: Seq<u8>) -> nat
    decreases s.len(),
{
    if s.len() == 0 {
        0
    } else {
        le_bytes_val(s.drop_last()) + s.last() as nat * pow256((s.len() - 1) as nat)
    }
}

/// Appending a byte adds it at the weight of the previous length.
pub proof fn lemma_le_bytes_push(s: Seq<u8>, b: u8)
    ensures
        le_bytes_val(s.push(b)) == le_bytes_val(s) + (b as nat) * pow256(s.len()),
{
    assert(s.push(b).drop_last() =~= s);
    assert(s.push(b).last() == b);
}

/// A byte string's value is below the weight of its length.
pub proof fn lemma_le_bytes_bound(s: Seq<u8>)
    ensures
        le_bytes_val(s) < pow256(s.len()),
    decreases s.len(),
{
    if s.len() == 0 {
    } else {
        let t = s.drop_last();
        lemma_le_bytes_bound(t);
        assert(s.last() as nat * pow256(t.len()) <= 255 * pow256(t.len())) by (nonlinear_arith)
            requires
                s.last() as nat <= 255,
                pow256(t.len()) >= 0,
        ;
        assert(pow256(t.len()) + 255 * pow256(t.len()) == pow256(s.len()));
    }
}

/// A nonzero byte puts the value at or above that byte's weight.
pub proof fn lemma_le_bytes_byte_lower(s: Seq<u8>, j: int)
    requires
        0 <= j < s.len(),
        s[j] != 0,
    ensures
        le_bytes_val(s) >= pow256(j as nat),
    decreases s.len(),
{
    let t = s.drop_last();
    if j == s.len() - 1 {
        crate::intmath::lemma_pow256_pos(j as nat);
        assert(s.last() as nat * pow256(j as nat) >= pow256(j as nat)) by (nonlinear_arith)
            requires
                s.last() as nat >= 1,
                pow256(j as nat) >= 1,
        ;
    } else {
        assert(t[j] == s[j]);
        lemma_le_bytes_byte_lower(t, j);
    }
}

/// An all-zero byte string has value zero.
pub proof fn lemma_le_bytes_zero(s: Seq<u8>)
    requires
        forall|i: int| 0 <= i < s.len() ==> s[i] == 0,
    ensures
        le_bytes_val(s) == 0,
    decreases s.len(),
{
    if s.len() > 0 {
        lemma_le_bytes_zero(s.drop_last());
    }
}

/// Zero bytes from position `k` on do not change the value.
pub proof fn lemma_le_bytes_zero_suffix(s: Seq<u8>, k: int)
    requires
        0 <= k <= s.len(),
        forall|i: int| k <= i < s.len() ==> s[i] == 0,
    ensures
        le_bytes_val(s) == le_bytes_val(s.subrange(0, k)),
    decreases s.len() - k,
{
    if k == s.len() {
        assert(s.subrange(0, k) =~= s);
    } else {
        let t = s.drop_last();
        assert(s.last() == 0);
        lemma_le_bytes_zero_suffix(t, k);
        assert(t.subrange(0, k) =~= s.subrange(0, k));
    }
}

impl BigValue {
    /// The integer this value denotes.
    pub open spec fn as_int(self) -> int {
        if self.negative {
            -(le_bytes_val(self.magnitude@) as int)
        } else {
            le_bytes_val(self.magnitude@) as int
        }
    }

    /// Builds the value of a non-negative machine integer.
    pub fn from_u128(x: u128) -> (r: BigValue)
        ensures
            r.as_int() == x as int,
            !r.negative,
    {
        let mut m: u128 = x;
        let mut bytes: Vec<u8> = Vec::new();
        proof {
            assert(bytes@ =~= Seq::<u8>::empty());
            assert(le_bytes_val(bytes@) == 0);
            assert((m as nat) * pow256(0) == m as nat) by (nonlinear_arith)
                requires
                    pow256(0) == 1,
            ;
        }
        while m > 0
            invariant
                x as nat == le_bytes_val(bytes@) + (m as nat) * pow256(bytes@.len()),
            decreases m,
        {
            let b: u8 = (m % 256) as u8;
            proof {
                lemma_le_bytes_push(bytes@, b);
                assert(m as nat == 256 * ((m as nat) / 256) + (m as nat) % 256);
                assert((m as nat) * pow256(bytes@.len()) == ((m as nat) % 256) * pow256(
                    bytes@.len(),
                ) + ((m as nat) / 256) * (256 * pow256(bytes@.len()))) by (nonlinear_arith)
                    requires
                        m as nat == 256 * ((m as nat) / 256) + (m as nat) % 256,
                ;
            }
            bytes.push(b);
            m = m / 256;
        }
        BigValue { negative: false, magnitude: bytes }
    }

    /// Builds the value of any signed machine integer.
    pub fn from_i128(x: i128) -> (r: BigValue)
        ensures
            r.as_int() == x as int,
    {
        if x >= 0 {
            Self::from_u128(x as u128)
        } else {
            let mag: u128 = ((-(x + 1)) as u128) + 1;
            let mut r = Self::from_u128(mag);
            r.negative = true;
            r
        }
    }

    /// True exactly when the value is zero.
    pub fn is_zero(&self) -> (r: bool)
        ensures
            r == (self.as_int() == 0),
    {
        let n = self.magnitude.len();
        let mut i: usize = 0;
        while i < n
            invariant
                0 <= i <= n,
                n == self.magnitude@.len(),
                forall|j: int| 0 <= j < i ==> self.magnitude@[j] == 0,
            decreases n - i,
        {
            if self.magnitude[i] != 0 {
                proof {
                    lemma_le_bytes_byte_lower(self.magnitude@, i as int);
                    crate::intmath::lemma_pow256_pos(i as nat);
                }
                return false;
            }
            i = i + 1;
        }
        proof {
            lemma_le_bytes_zero(self.magnitude@);
        }
        true
    }

    /// True exactly when the value is below zero.
    pub fn is_negative(&self) -> (r: bool)
        ensures
            r == (self.as_int() < 0),
    {
        self.negative && !self.is_zero()
    }

    /// An equal value, field for field.
    pub fn clone_value(&self) -> (r: BigValue)
        ensures
            r.negative == self.negative,
            r.magnitude@ == self.magnitude@,
            r.as_int() == self.as_int(),
    {
        let r = BigValue { negative: self.negative, magnitude: self.magnitude.clone() };
        proof {
            assert(r.magnitude@ =~= self.magnitude@);
        }
        r
    }

    /// The same magnitude under the opposite sign.
    pub fn negated(&self) -> (r: BigValue)
        ensures
            r.as_int() == -self.as_int(),
    {
        let r = BigValue { negative: !self.negative, magnitude: self.magnitude.clone() };
        proof {
            assert(r.magnitude@ =~= self.magnitude@);
        }
        r
    }

    /// The magnitude as a `u128`, when it fits.
    pub fn magnitude_u128(&self) -> (r: Option<u128>)
        ensures
            match r {
                Some(v) => v as nat == le_bytes_val(self.magnitude@),
                None => le_bytes_val(self.magnitude@) > u128::MAX as nat,
            },
    {
        let n = self.magnitude.len();
        let mut i: usize = 0;
        let mut acc: u128 = 0;
        let mut weight: u128 = 1;
        proof {
            assert(pow256(0) == 1);
            assert(self.magnitude@.subrange(0, 0) =~= Seq::<u8>::empty());
        }
        // Accumulate the first sixteen bytes; they are all a `u128` can hold.
        while i < n && i < 16
            invariant
                0 <= i <= n,
                i <= 16,
                n == self.magnitude@.len(),
                acc as nat == le_bytes_val(self.magnitude@.subrange(0, i as int)),
                i < 16 ==> weight as nat == pow256(i as nat),
            decreases n - i,
        {
            let b = self.magnitude[i];
            proof {
                let pre = self.magnitude@.subrange(0, i as int);
                assert(self.magnitude@.subrange(0, i as int + 1).drop_last() =~= pre);
                assert(self.magnitude@.subrange(0, i as int + 1).last() == b);
                lemma_le_bytes_bound(pre);
                lemma_pow256_pow2(i as nat);
                lemma_pow256_pow2((i + 1) as nat);
                lemma_pow2_repr_values();
                if i < 15 {
                    vstd::arithmetic::power2::lemma_pow2_strictly_increases(
                        8 * (i + 1) as nat,
                        128,
                    );
                }
                assert((b as nat) * pow256(i as nat) <= 255 * pow256(i as nat))
                    by (nonlinear_arith)
                    requires
                        b as nat <= 255,
                        pow256(i as nat) >= 0,
                ;
                assert(pow256(i as nat) + 255 * pow256(i as nat) == pow256((i + 1) as nat));
            }
            acc = acc + b as u128 * weight;
            i = i + 1;
            if i < 16 {
                weight = weight * 256;
                proof {
                    lemma_pow256_pow2(i as nat);
                    lemma_pow2_repr_values();
                    vstd::arithmetic::power2::lemma_pow2_strictly_increases(8 * i as nat, 128);
                }
            } else {
                weight = 1;
            }
        }
        // Any byte past the sixteenth must be zero, else the value is too big.
        let mut j: usize = i;
        while j < n
            invariant
                i <= j <= n,
                n == self.magnitude@.len(),
                acc as nat == le_bytes_val(self.magnitude@.subrange(0, i as int)),
                i as int == if n < 16 {
                    n as int
                } else {
                    16
                },
                forall|k: int| i <= k < j ==> self.magnitude@[k] == 0,
            decreases n - j,
        {
            if self.magnitude[j] != 0 {
                proof {
                    lemma_le_bytes_byte_lower(self.magnitude@, j as int);
                    lemma_pow256_pow2(j as nat);
                    lemma_pow2_repr_values();
                    if 8 * (j as nat) > 128 {
                        vstd::arithmetic::power2::lemma_pow2_strictly_increases(
                            128,
                            8 * (j as nat),
                        );
                    }
                    assert(pow256(j as nat) >= pow2(128));
                }
                return None;
            }
            j = j + 1;
        }
        proof {
            lemma_le_bytes_zero_suffix(self.magnitude@, i as int);
        }
        Some(acc)
    }

    /// The value as a `u128`: absent exactly when it is negative or too big.
    pub fn try_to_u128(&self) -> (r: Option<u128>)
        ensures
            match r {
                Some(v) => v as int == self.as_int(),
                None => self.as_int() < 0 || self.as_int() > u128::MAX as int,
            },
    {
        if self.is_negative() {
            return None;
        }
        match self.magnitude_u128() {
            Some(v) => Some(v),
            None => None,
        }
    }

    /// The value as an `i128`: absent exactly when it is out of range.
    pub fn try_to_i128(&self) -> (r: Option<i128>)
        ensures
            match r {
                Some(v) => v as int == self.as_int(),
                None => self.as_int() < i128::MIN as int || self.as_int() > i128::MAX as int,
            },
    {
        let mag = match self.magnitude_u128() {
            Some(v) => v,
            None => {
                return None;
            },
        };
        if self.is_negative() {
            if mag <= i128::MAX as u128 {
                Some(-(mag as i128))
            } else if mag == i128::MAX as u128 + 1 {
                Some(i128::MIN)
            } else {
                None
            }
        } else {
            if mag <= i128::MAX as u128 {
                Some(mag as i128)
            } else {
                None
            }
        }
    }
}

/// Relies on `num_bigint::BigInt` addition and on `from_bytes_le` /
/// `to_bytes_le`, which read and write a sign and little-endian magnitude.
#[verifier::external_body]
pub(crate) fn big_add(a: &BigValue, b: &BigValue) -> (r: BigValue)
    ensures
        r.as_int() == a.as_int() + b.as_int(),
{
    let sa = if a.negative { num_bigint::Sign::Minus } else { num_bigint::Sign::Plus };
    let sb = if b.negative { num_bigint::Sign::Minus } else { num_bigint::Sign::Plus };
    let x = num_bigint::BigInt::from_bytes_le(sa, &a.magnitude);
    let y = num_bigint::BigInt::from_bytes_le(sb, &b.magnitude);
    let (s, mag) = (x + y).to_bytes_le();
    BigValue { negative: s == num_bigint::Sign::Minus, magnitude: mag }
}

/// Relies on `num_bigint::BigInt` subtraction.
#[verifier::external_body]
pub(crate) fn big_sub(a: &BigValue, b: &BigValue) -> (r: BigValue)
    ensures
        r.as_int() == a.as_int() - b.as_int(),
{
    let sa = if a.negative { num_bigint::Sign::Minus } else { num_bigint::Sign::Plus };
    let sb = if b.negative { num_bigint::Sign::Minus } else { num_bigint::Sign::Plus };
    let x = num_bigint::BigInt::from_bytes_le(sa, &a.magnitude);
    let y = num_bigint::BigInt::from_bytes_le(sb, &b.magnitude);
    let (s, mag) = (x - y).to_bytes_le();
    BigValue { negative: s == num_bigint::Sign::Minus, magnitude: mag }
}

/// Relies on `num_bigint::BigInt` multiplication.
#[verifier::external_body]
pub(crate) fn big_mul(a: &BigValue, b: &BigValue) -> (r: BigValue)
    ensures
        r.as_int() == a.as_int() * b.as_int(),
{
    let sa = if a.negative { num_bigint::Sign::Minus } else { num_bigint::Sign::Plus };
    let sb = if b.negative { num_bigint::Sign::Minus } else { num_bigint::Sign::Plus };
    let x = num_bigint::BigInt::from_bytes_le(sa, &a.magnitude);
    let y = num_bigint::BigInt::from_bytes_le(sb, &b.magnitude);
    let (s, mag) = (x * y).to_bytes_le();
    BigValue { negative: s == num_bigint::Sign::Minus, magnitude: mag }
}

/// Relies on `num_bigint::BigInt` division, which truncates toward zero and
/// panics on a zero divisor; the precondition rules the panic out.
#[verifier::external_body]
pub(crate) fn big_div(a: &BigValue, b: &BigValue) -> (r: BigValue)
    requires
        b.as_int() != 0,
    ensures
        r.as_int() == trunc_div(a.as_int(), b.as_int()),
{
    let sa = if a.negative { num_bigint::Sign::Minus } else { num_bigint::Sign::Plus };
    let sb = if b.negative { num_bigint::Sign::Minus } else { num_bigint::Sign::Plus };
    let x = num_bigint::BigInt::from_bytes_le(sa, &a.magnitude);
    let y = num_bigint::BigInt::from_bytes_le(sb, &b.magnitude);
    let (s, mag) = (x / y).to_bytes_le();
    BigValue { negative: s == num_bigint::Sign::Minus, magnitude: mag }
}

/// Relies on `num_bigint::BigInt` remainder, whose sign follows the dividend
/// and which panics on a zero divisor; the precondition rules the panic out.
#[verifier::external_body]
pub(crate) fn big_rem(a: &BigValue, b: &BigValue) -> (r: BigValue)
    requires
        b.as_int() != 0,
    ensures
        r.as_int() == trunc_rem(a.as_int(), b.as_int()),
{
    let sa = if a.negative { num_bigint::Sign::Minus } else { num_bigint::Sign::Plus };
    let sb = if b.negative { num_bigint::Sign::Minus } else { num_bigint::Sign::Plus };
    let x = num_bigint::BigInt::from_bytes_le(sa, &a.magnitude);
    let y = num_bigint::BigInt::from_bytes_le(sb, &b.magnitude);
    let (s, mag) = (x % y).to_bytes_le();
    BigValue { negative: s == num_bigint::Sign::Minus, magnitude: mag }
}

/// Relies on `num_bigint::BigInt` bitwise AND, which follows two's-complement
/// semantics extended to unbounded width.
#[verifier::external_body]
pub(crate) fn big_and(a: &BigValue, b: &BigValue) -> (r: BigValue)
    ensures
        r.as_int() == and_bits(a.as_int(), b.as_int()),
{
    let sa = if a.negative { num_bigint::Sign::Minus } else { num_bigint::Sign::Plus };
    let sb = if b.negative { num_bigint::Sign::Minus } else { num_bigint::Sign::Plus };
    let x = num_bigint::BigInt::from_bytes_le(sa, &a.magnitude);
    let y = num_bigint::BigInt::from_bytes_le(sb, &b.magnitude);
    let (s, mag) = (x & y).to_bytes_le();
    BigValue { negative: s == num_bigint::Sign::Minus, magnitude: mag }
}

/// Relies on `num_bigint::BigInt` bitwise OR, two's-complement semantics.
#[verifier::external_body]
pub(crate) fn big_or(a: &BigValue, b: &BigValue) -> (r: BigValue)
    ensures
        r.as_int() == or_bits(a.as_int(), b.as_int()),
{
    let sa = if a.negative { num_bigint::Sign::Minus } else { num_bigint::Sign::Plus };
    let sb = if b.negative { num_bigint::Sign::Minus } else { num_bigint::Sign::Plus };
    let x = num_bigint::BigInt::from_bytes_le(sa, &a.magnitude);
    let y = num_bigint::BigInt::from_bytes_le(sb, &b.magnitude);
    let (s, mag) = (x | y).to_bytes_le();
    BigValue { negative: s == num_bigint::Sign::Minus, magnitude: mag }
}

/// Relies on `num_bigint::BigInt` bitwise XOR, two's-complement semantics.
#[verifier::external_body]
pub(crate) fn big_xor(a: &BigValue, b: &BigValue) -> (r: BigValue)
    ensures
        r.as_int() == xor_bits(a.as_int(), b.as_int()),
{
    let sa = if a.negative { num_bigint::Sign::Minus } else { num_bigint::Sign::Plus };
    let sb = if b.negative { num_bigint::Sign::Minus } else { num_bigint::Sign::Plus };
    let x = num_bigint::BigInt::from_bytes_le(sa, &a.magnitude);
    let y = num_bigint::BigInt::from_bytes_le(sb, &b.magnitude);
    let (s, mag) = (x ^ y).to_bytes_le();
    BigValue { negative: s == num_bigint::Sign::Minus, magnitude: mag }
}

/// Relies on the `Ord` instance of `num_bigint::BigInt`, which orders by
/// numeric value.
#[verifier::external_body]
pub(crate) fn big_lt(a: &BigValue, b: &BigValue) -> (r: bool)
    ensures
        r == (a.as_int() < b.as_int()),
{
    let sa = if a.negative { num_bigint::Sign::Minus } else { num_bigint::Sign::Plus };
    let sb = if b.negative { num_bigint::Sign::Minus } else { num_bigint::Sign::Plus };
    let x = num_bigint::BigInt::from_bytes_le(sa, &a.magnitude);
    let y = num_bigint::BigInt::from_bytes_le(sb, &b.magnitude);
    x < y
}

/// Relies on `num_bigint::BigInt::bits`, the bit length of the magnitude
/// (zero for zero).
#[verifier::external_body]
pub(crate) fn big_bits(a: &BigValue) -> (r: u64)
    ensures
        r as nat == bitlen(abs_int(a.as_int())),
{
    let x = num_bigint::BigInt::from_bytes_le(num_bigint::Sign::Plus, &a.magnitude);
    x.bits()
}

} // verus!
