//! The runtime contract every generated bounded integer satisfies:
//! conversion to and from the representation, bound accessors, and checked
//! and saturating arithmetic built from the single validation point.
//!
//! [`BoundedI8`] and [`BoundedU8`] realize the contract for the two
//! representations the emitter most often picks; a generated type for any
//! other representation behaves the same way, width for width.

use vstd::prelude::*;

verus! {

/// The single enforcement point: a raw representation value is accepted
/// exactly when it lies inside the closed range.
pub open spec fn from_repr_spec(low: int, high: int, raw: int) -> Option<int> {
    if low <= raw && raw <= high {
        Some(raw)
    } else {
        None
    }
}

/// Checked addition: the exact sum when it stays inside the range, absent
/// otherwise. Native machine overflow needs no clause of its own: the bounds
/// are themselves representation values, so an overflowed sum is out of range.
pub open spec fn checked_add_spec(low: int, high: int, v: int, o: int) -> Option<int> {
    from_repr_spec(low, high, v + o)
}

/// Checked subtraction: the exact difference when it stays inside the range.
pub open spec fn checked_sub_spec(low: int, high: int, v: int, o: int) -> Option<int> {
    from_repr_spec(low, high, v - o)
}

/// Saturating addition: the checked result when there is one; otherwise the
/// high bound when the other operand is non-negative, else the low bound.
pub open spec fn saturating_add_spec(low: int, high: int, v: int, o: int) -> int {
    match checked_add_spec(low, high, v, o) {
        Some(x) => x,
        None => if o >= 0 {
            high
        } else {
            low
        },
    }
}

/// Saturating subtraction: the checked result when there is one; otherwise
/// the high bound when the other operand is negative, else the low bound.
pub open spec fn saturating_sub_spec(low: int, high: int, v: int, o: int) -> int {
    match checked_sub_spec(low, high, v, o) {
        Some(x) => x,
        None => if o < 0 {
            high
        } else {
            low
        },
    }
}

/// The interface of a generated bounded integer: a wrapped representation
/// value kept inside a closed range at every construction and mutation.
pub trait BoundedInteger: Sized {
    /// The machine representation the values are stored in.
    type Repr;

    /// The mathematical value of a raw representation value.
    spec fn repr_to_int(r: Self::Repr) -> int;

    /// The instance invariant: the wrapped value lies inside the range.
    spec fn inv(self) -> bool;

    /// The low bound.
    spec fn low_spec(self) -> int;

    /// The high bound.
    spec fn high_spec(self) -> int;

    /// The wrapped value.
    spec fn value_spec(self) -> int;

    /// Accepts a raw value exactly when it lies inside the given range.
    fn from_representation(low: Self::Repr, high: Self::Repr, raw: Self::Repr) -> (r: Option<
        Self,
    >)
        requires
            Self::repr_to_int(low) <= Self::repr_to_int(high),
        ensures
            match r {
                Some(b) => from_repr_spec(
                    Self::repr_to_int(low),
                    Self::repr_to_int(high),
                    Self::repr_to_int(raw),
                ) == Some(b.value_spec()) && b.inv() && b.low_spec() == Self::repr_to_int(low)
                    && b.high_spec() == Self::repr_to_int(high),
                None => from_repr_spec(
                    Self::repr_to_int(low),
                    Self::repr_to_int(high),
                    Self::repr_to_int(raw),
                ) is None,
            },
    ;

    /// The wrapped raw value.
    fn to_representation(&self) -> (r: Self::Repr)
        requires
            self.inv(),
        ensures
            Self::repr_to_int(r) == self.value_spec(),
    ;

    /// The low bound as a raw value.
    fn min_value(&self) -> (r: Self::Repr)
        requires
            self.inv(),
        ensures
            Self::repr_to_int(r) == self.low_spec(),
    ;

    /// The high bound as a raw value.
    fn max_value(&self) -> (r: Self::Repr)
        requires
            self.inv(),
        ensures
            Self::repr_to_int(r) == self.high_spec(),
    ;

    /// Adds in the representation and revalidates; absent exactly when the
    /// exact sum leaves the range.
    fn checked_add(&self, other: Self::Repr) -> (r: Option<Self>)
        requires
            self.inv(),
        ensures
            match r {
                Some(b) => checked_add_spec(
                    self.low_spec(),
                    self.high_spec(),
                    self.value_spec(),
                    Self::repr_to_int(other),
                ) == Some(b.value_spec()) && b.inv() && b.low_spec() == self.low_spec()
                    && b.high_spec() == self.high_spec(),
                None => checked_add_spec(
                    self.low_spec(),
                    self.high_spec(),
                    self.value_spec(),
                    Self::repr_to_int(other),
                ) is None,
            },
    ;

    /// Subtracts in the representation and revalidates.
    fn checked_sub(&self, other: Self::Repr) -> (r: Option<Self>)
        requires
            self.inv(),
        ensures
            match r {
                Some(b) => checked_sub_spec(
                    self.low_spec(),
                    self.high_spec(),
                    self.value_spec(),
                    Self::repr_to_int(other),
                ) == Some(b.value_spec()) && b.inv() && b.low_spec() == self.low_spec()
                    && b.high_spec() == self.high_spec(),
                None => checked_sub_spec(
                    self.low_spec(),
                    self.high_spec(),
                    self.value_spec(),
                    Self::repr_to_int(other),
                ) is None,
            },
    ;

    /// The checked sum, clamped by the sign of the other operand on failure.
    fn saturating_add(&self, other: Self::Repr) -> (r: Self)
        requires
            self.inv(),
        ensures
            r.inv(),
            r.low_spec() == self.low_spec(),
            r.high_spec() == self.high_spec(),
            r.value_spec() == saturating_add_spec(
                self.low_spec(),
                self.high_spec(),
                self.value_spec(),
                Self::repr_to_int(other),
            ),
    ;

    /// The checked difference, clamped by the sign of the other operand on
    /// failure.
    fn saturating_sub(&self, other: Self::Repr) -> (r: Self)
        requires
            self.inv(),
        ensures
            r.inv(),
            r.low_spec() == self.low_spec(),
            r.high_spec() == self.high_spec(),
            r.value_spec() == saturating_sub_spec(
                self.low_spec(),
                self.high_spec(),
                self.value_spec(),
                Self::repr_to_int(other),
            ),
    ;
}

/// A bounded integer stored in an `i8`.
#[derive(Clone, Copy, Debug, PartialEq, Eq, Structural)]
pub struct BoundedI8 {
    /// The low bound.
    pub low: i8,
    /// The high bound.
    pub high: i8,
    /// The wrapped value; the invariant keeps it inside the bounds.
    pub value: i8,
}

impl BoundedInteger for BoundedI8 {
    type Repr = i8;

    open spec fn repr_to_int(r: i8) -> int {
        r as int
    }

    open spec fn inv(self) -> bool {
        self.low <= self.value <= self.high
    }

    open spec fn low_spec(self) -> int {
        self.low as int
    }

    open spec fn high_spec(self) -> int {
        self.high as int
    }

    open spec fn value_spec(self) -> int {
        self.value as int
    }

    fn from_representation(low: i8, high: i8, raw: i8) -> (r: Option<BoundedI8>) {
        if low <= raw && raw <= high {
            Some(BoundedI8 { low, high, value: raw })
        } else {
            None
        }
    }

    fn to_representation(&self) -> (r: i8) {
        self.value
    }

    fn min_value(&self) -> (r: i8) {
        self.low
    }

    fn max_value(&self) -> (r: i8) {
        self.high
    }

    fn checked_add(&self, other: i8) -> (r: Option<BoundedI8>) {
        let sum: i32 = self.value as i32 + other as i32;
        if sum < self.low as i32 || sum > self.high as i32 {
            None
        } else {
            Some(BoundedI8 { low: self.low, high: self.high, value: sum as i8 })
        }
    }

    fn checked_sub(&self, other: i8) -> (r: Option<BoundedI8>) {
        let diff: i32 = self.value as i32 - other as i32;
        if diff < self.low as i32 || diff > self.high as i32 {
            None
        } else {
            Some(BoundedI8 { low: self.low, high: self.high, value: diff as i8 })
        }
    }

    fn saturating_add(&self, other: i8) -> (r: BoundedI8) {
        let sum: i32 = self.value as i32 + other as i32;
        if sum >= self.low as i32 && sum <= self.high as i32 {
            BoundedI8 { low: self.low, high: self.high, value: sum as i8 }
        } else if other >= 0 {
            BoundedI8 { low: self.low, high: self.high, value: self.high }
        } else {
            BoundedI8 { low: self.low, high: self.high, value: self.low }
        }
    }

    fn saturating_sub(&self, other: i8) -> (r: BoundedI8) {
        let diff: i32 = self.value as i32 - other as i32;
        if diff >= self.low as i32 && diff <= self.high as i32 {
            BoundedI8 { low: self.low, high: self.high, value: diff as i8 }
        } else if other < 0 {
            BoundedI8 { low: self.low, high: self.high, value: self.high }
        } else {
            BoundedI8 { low: self.low, high: self.high, value: self.low }
        }
    }
}

/// A bounded integer stored in a `u8`.
#[derive(Clone, Copy, Debug, PartialEq, Eq, Structural)]
pub struct BoundedU8 {
    /// The low bound.
    pub low: u8,
    /// The high bound.
    pub high: u8,
    /// The wrapped value; the invariant keeps it inside the bounds.
    pub value: u8,
}

impl BoundedInteger for BoundedU8 {
    type Repr = u8;

    open spec fn repr_to_int(r: u8) -> int {
        r as int
    }

    open spec fn inv(self) -> bool {
        self.low <= self.value <= self.high
    }

    open spec fn low_spec(self) -> int {
        self.low as int
    }

    open spec fn high_spec(self) -> int {
        self.high as int
    }

    open spec fn value_spec(self) -> int {
        self.value as int
    }

    fn from_representation(low: u8, high: u8, raw: u8) -> (r: Option<BoundedU8>) {
        if low <= raw && raw <= high {
            Some(BoundedU8 { low, high, value: raw })
        } else {
            None
        }
    }

    fn to_representation(&self) -> (r: u8) {
        self.value
    }

    fn min_value(&self) -> (r: u8) {
        self.low
    }

    fn max_value(&self) -> (r: u8) {
        self.high
    }

    fn checked_add(&self, other: u8) -> (r: Option<BoundedU8>) {
        let sum: u32 = self.value as u32 + other as u32;
        if sum < self.low as u32 || sum > self.high as u32 {
            None
        } else {
            Some(BoundedU8 { low: self.low, high: self.high, value: sum as u8 })
        }
    }

    fn checked_sub(&self, other: u8) -> (r: Option<BoundedU8>) {
        let diff: i32 = self.value as i32 - other as i32;
        if diff < self.low as i32 || diff > self.high as i32 {
            None
        } else {
            Some(BoundedU8 { low: self.low, high: self.high, value: diff as u8 })
        }
    }

    fn saturating_add(&self, other: u8) -> (r: BoundedU8) {
        let sum: u32 = self.value as u32 + other as u32;
        if sum >= self.low as u32 && sum <= self.high as u32 {
            BoundedU8 { low: self.low, high: self.high, value: sum as u8 }
        } else {
            // The other operand is never negative, so a failed checked sum
            // always clamps to the high bound.
            BoundedU8 { low: self.low, high: self.high, value: self.high }
        }
    }

    fn saturating_sub(&self, other: u8) -> (r: BoundedU8) {
        let diff: i32 = self.value as i32 - other as i32;
        if diff >= self.low as i32 && diff <= self.high as i32 {
            BoundedU8 { low: self.low, high: self.high, value: diff as u8 }
        } else {
            // The other operand is never negative, so a failed checked
            // difference always clamps to the low bound.
            BoundedU8 { low: self.low, high: self.high, value: self.low }
        }
    }
}

/// Conversion round-trip: every value inside the range is accepted back
/// unchanged by the validating constructor.
pub proof fn lemma_round_trip(low: int, high: int, v: int)
    requires
        low <= v <= high,
    ensures
        from_repr_spec(low, high, v) == Some(v),
{
}

/// Boundary behavior: one step outside either bound is rejected, and both
/// bounds themselves are accepted.
pub proof fn lemma_boundary(low: int, high: int)
    requires
        low <= high,
    ensures
        from_repr_spec(low, high, low - 1) is None,
        from_repr_spec(low, high, high + 1) is None,
        from_repr_spec(low, high, low) == Some(low),
        from_repr_spec(low, high, high) == Some(high),
{
}

/// Checked and saturating addition agree whenever the checked form succeeds,
/// and the saturating form clamps by the sign of the other operand whenever
/// the checked form fails.
pub proof fn lemma_checked_saturating_add_agree(low: int, high: int, v: int, o: int)
    requires
        low <= v <= high,
    ensures
        checked_add_spec(low, high, v, o) matches Some(x) ==> saturating_add_spec(low, high, v, o)
            == x,
        checked_add_spec(low, high, v, o) is None ==> saturating_add_spec(low, high, v, o) == (
        if o >= 0 {
            high
        } else {
            low
        }),
{
}

/// Checked and saturating subtraction agree whenever the checked form
/// succeeds, and the saturating form clamps by the sign of the other operand
/// whenever the checked form fails.
pub proof fn lemma_checked_saturating_sub_agree(low: int, high: int, v: int, o: int)
    requires
        low <= v <= high,
    ensures
        checked_sub_spec(low, high, v, o) matches Some(x) ==> saturating_sub_spec(low, high, v, o)
            == x,
        checked_sub_spec(low, high, v, o) is None ==> saturating_sub_spec(low, high, v, o) == (
        if o < 0 {
            high
        } else {
            low
        }),
{
}

} // verus!
