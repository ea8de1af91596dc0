//! Mathematical integer functions used throughout the contracts: powers of
//! 256, bit lengths, truncated division and remainder, and bitwise operations
//! on unbounded integers in two's-complement form.

use vstd::arithmetic::power2::{
    lemma2_to64, lemma2_to64_rest, lemma_pow2_adds, lemma_pow2_pos, lemma_pow2_strictly_increases,
    pow2,
};
use vstd::prelude::*;

verus! {

/// 256 raised to the power `n`; the weight of the `n`-th byte of a
/// little-endian magnitude.
pub open spec fn pow256(n: nat) -> nat
    decreases n,
{
    if n == 0 {
        1
    } else {
        256 * pow256((n - 1) as nat)
    }
}

/// Number of bits needed to represent the non-negative integer `n`;
/// zero bits for zero.
pub open spec fn bitlen(n: nat) -> nat
    decreases n,
{
    if n == 0 {
        0
    } else {
        1 + bitlen(n / 2)
    }
}

/// Absolute value.
pub open spec fn abs_int(a: int) -> nat {
    if a < 0 {
        (-a) as nat
    } else {
        a as nat
    }
}

/// Division truncating toward zero, the semantics of arbitrary-precision
/// integer division here.
pub open spec fn trunc_div(a: int, b: int) -> int {
    let q = abs_int(a) / abs_int(b);
    if (a < 0) != (b < 0) {
        -(q as int)
    } else {
        q as int
    }
}

/// Remainder paired with `trunc_div`: same sign as the dividend.
pub open spec fn trunc_rem(a: int, b: int) -> int {
    a - b * trunc_div(a, b)
}

/// Bitwise AND of two unbounded integers in two's-complement form.
pub open spec fn and_bits(a: int, b: int) -> int
    decreases abs_int(a) + abs_int(b),
{
    if (a == 0 || a == -1) && (b == 0 || b == -1) {
        if a == -1 && b == -1 {
            -1
        } else {
            0
        }
    } else {
        (if a % 2 == 1 && b % 2 == 1 {
            1int
        } else {
            0int
        }) + 2 * and_bits(a / 2, b / 2)
    }
}

/// Bitwise OR of two unbounded integers in two's-complement form.
pub open spec fn or_bits(a: int, b: int) -> int
    decreases abs_int(a) + abs_int(b),
{
    if (a == 0 || a == -1) && (b == 0 || b == -1) {
        if a == 0 && b == 0 {
            0
        } else {
            -1
        }
    } else {
        (if a % 2 == 1 || b % 2 == 1 {
            1int
        } else {
            0int
        }) + 2 * or_bits(a / 2, b / 2)
    }
}

/// Bitwise XOR of two unbounded integers in two's-complement form.
pub open spec fn xor_bits(a: int, b: int) -> int
    decreases abs_int(a) + abs_int(b),
{
    if (a == 0 || a == -1) && (b == 0 || b == -1) {
        if a == b {
            0
        } else {
            -1
        }
    } else {
        (if (a % 2 == 1) != (b % 2 == 1) {
            1int
        } else {
            0int
        }) + 2 * xor_bits(a / 2, b / 2)
    }
}

/// Bitwise complement of an unbounded integer in two's-complement form.
pub open spec fn not_bits(a: int) -> int {
    -a - 1
}

/// Every positive integer is at least the power of two one below its bit
/// length and below the power of two at its bit length.
pub proof fn lemma_bitlen_bounds(n: nat)
    ensures
        n < pow2(bitlen(n)),
        n > 0 ==> n >= pow2((bitlen(n) - 1) as nat),
    decreases n,
{
    if n == 0 {
        lemma_pow2_pos(0);
        assert(pow2(0) == 1) by {
            lemma2_to64();
        }
    } else {
        lemma_bitlen_bounds(n / 2);
        let bl = bitlen(n);
        assert(bl == 1 + bitlen(n / 2));
        assert(pow2(bl) == 2 * pow2((bl - 1) as nat)) by {
            lemma_pow2_adds(1, (bl - 1) as nat);
            lemma2_to64();
        }
        assert(n == 2 * (n / 2) + n % 2);
        if n / 2 == 0 {
            assert(n == 1);
            assert(pow2(0) == 1 && pow2(1) == 2) by {
                lemma2_to64();
            }
        } else {
            assert(pow2((bl - 1) as nat) == 2 * pow2((bl - 2) as nat)) by {
                lemma_pow2_adds(1, (bl - 2) as nat);
                lemma2_to64();
            }
        }
    }
}

/// A bit length bounded by `k` bounds the integer by `pow2(k)`.
pub proof fn lemma_bitlen_le(n: nat, k: nat)
    requires
        bitlen(n) <= k,
    ensures
        n < pow2(k),
{
    lemma_bitlen_bounds(n);
    if bitlen(n) < k {
        lemma_pow2_strictly_increases(bitlen(n), k);
    }
}

/// An integer below `pow2(k)` has bit length at most `k`.
pub proof fn lemma_bitlen_from_bound(n: nat, k: nat)
    requires
        n < pow2(k),
    ensures
        bitlen(n) <= k,
{
    lemma_bitlen_bounds(n);
    if bitlen(n) > k {
        lemma_pow2_strictly_increases(k, (bitlen(n) - 1) as nat);
        assert(n >= pow2((bitlen(n) - 1) as nat));
    }
}

/// Bit length is monotone.
pub proof fn lemma_bitlen_monotone(a: nat, b: nat)
    requires
        a <= b,
    ensures
        bitlen(a) <= bitlen(b),
{
    lemma_bitlen_bounds(b);
    lemma_bitlen_from_bound(a, bitlen(b));
}

/// Concrete values of the powers of two that bound the supported machine
/// representations.
pub proof fn lemma_pow2_repr_values()
    ensures
        pow2(7) == 0x80,
        pow2(8) == 0x100,
        pow2(15) == 0x8000,
        pow2(16) == 0x10000,
        pow2(31) == 0x80000000,
        pow2(32) == 0x100000000,
        pow2(63) == 0x8000000000000000,
        pow2(64) == 0x10000000000000000,
        pow2(120) == 0x1000000000000000000000000000000,
        pow2(127) == 0x80000000000000000000000000000000,
        pow2(128) == 0x100000000000000000000000000000000,
{
    lemma2_to64();
    lemma2_to64_rest();
    lemma_pow2_adds(32, 31);
    lemma_pow2_adds(32, 32);
    lemma_pow2_adds(64, 56);
    lemma_pow2_adds(64, 63);
    lemma_pow2_adds(64, 64);
}

/// Powers of 256 are positive.
pub proof fn lemma_pow256_pos(n: nat)
    ensures
        pow256(n) >= 1,
    decreases n,
{
    if n > 0 {
        lemma_pow256_pos((n - 1) as nat);
    }
}

/// `pow256` is `pow2` of eight times the exponent.
pub proof fn lemma_pow256_pow2(n: nat)
    ensures
        pow256(n) == pow2(8 * n),
    decreases n,
{
    if n == 0 {
        lemma2_to64();
    } else {
        lemma_pow256_pow2((n - 1) as nat);
        lemma_pow2_adds(8, 8 * (n - 1) as nat);
        lemma2_to64();
    }
}

} // verus!
