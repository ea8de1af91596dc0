//! Resolution of a declaration into a type specification.
//!
//! A declaration carries the kind, name, passthrough attributes and
//! visibility, an optional explicit representation identifier, an optional
//! alternate library location, and the two endpoint expressions of the range.
//! `parse` evaluates the endpoints, normalizes an exclusive upper bound,
//! enforces the range invariant, and resolves the representation, rejecting
//! the declaration with a structured error at the first violation.

use crate::big::{big_lt, big_sub, BigValue};
use crate::expr::{eval_spec, evaluate, EvalError, RangeExpr};
use crate::repr::{lemma_select_fits, Repr, ReprSize};
use vstd::prelude::*;
use vstd::string::StringExecFns;

verus! {

/// The declared kind of the generated type.
#[derive(Clone, Copy, Debug, PartialEq, Eq, Structural)]
pub enum Kind {
    /// A record-like wrapper around a single representation value.
    Struct,
    /// One enumerated constant per integer of the range.
    Enum,
}

/// Which endpoint of the range an error is positioned against.
#[derive(Clone, Copy, Debug, PartialEq, Eq, Structural)]
pub enum Bound {
    /// The low endpoint.
    Low,
    /// The high endpoint.
    High,
}

/// Why a declaration was rejected.
#[derive(Clone, Copy, Debug, PartialEq, Eq, Structural)]
pub enum SpecError {
    /// The explicit representation names no supported integer.
    UnknownRepr,
    /// The range is missing an endpoint.
    UnboundedRange,
    /// After normalization the low endpoint is not below the high one.
    EmptyOrInvertedRange,
    /// An endpoint expression failed to evaluate.
    Eval {
        /// Which endpoint failed.
        bound: Bound,
        /// The evaluator's error, positioned inside that endpoint.
        error: EvalError,
    },
    /// The range holds a negative value but the explicit representation is
    /// unsigned.
    SignMismatch,
    /// An endpoint falls outside the explicit representation's native range.
    ReprTooNarrow {
        /// Which endpoint falls outside.
        bound: Bound,
    },
    /// No supported representation is wide enough for the range.
    RangeTooWide,
}

/// A declaration, ready for resolution.
pub struct Declaration {
    /// The declared kind.
    pub kind: Kind,
    /// The name of the generated type.
    pub name: String,
    /// The declared visibility, passed through unread.
    pub vis: String,
    /// The declared attributes, passed through unread.
    pub attrs: Vec<String>,
    /// An explicit representation identifier, when one was declared.
    pub repr: Option<String>,
    /// An alternate library location, when one was declared.
    pub location: Option<String>,
    /// The low endpoint expression; absent on an open-ended range.
    pub low: Option<RangeExpr>,
    /// The high endpoint expression; absent on an open-ended range.
    pub high: Option<RangeExpr>,
    /// True for an inclusive upper bound, false for an exclusive one.
    pub inclusive: bool,
}

/// The resolved closed range the generated type must accept.
#[derive(Debug)]
pub struct ResolvedRange {
    /// The inclusive low bound.
    pub low: BigValue,
    /// The inclusive high bound.
    pub high: BigValue,
}

impl ResolvedRange {
    /// The range invariant resolution enforces.
    pub open spec fn wf(self) -> bool {
        self.low.as_int() < self.high.as_int()
    }
}

/// A resolved specification, ready for emission.
#[derive(Debug)]
pub struct TypeSpec {
    /// The declared kind.
    pub kind: Kind,
    /// The name of the generated type.
    pub name: String,
    /// The declared visibility, passed through unread.
    pub vis: String,
    /// The declared attributes, passed through unread.
    pub attrs: Vec<String>,
    /// The resolved representation.
    pub repr: Repr,
    /// The resolved closed range.
    pub range: ResolvedRange,
    /// The library location the emitted code refers to.
    pub location: String,
}

impl TypeSpec {
    /// What resolution guarantees of its result: the range invariant holds,
    /// a fixed representation covers both bounds, and a platform-word
    /// representation is signed when the range holds a negative value.
    pub open spec fn wf(self) -> bool {
        &&& self.range.wf()
        &&& match self.repr.size {
            ReprSize::Fixed(_) => self.repr.fits(
                self.range.low.as_int(),
                self.range.high.as_int(),
            ),
            ReprSize::Pointer => !self.repr.signed ==> self.range.low.as_int() >= 0,
        }
    }
}

/// Validation of an explicit representation against resolved bounds: the
/// sign is checked first, then the low endpoint, then the high one; the
/// platform word has no known native bounds and only its sign is checked.
pub open spec fn validate_spec(rp: Repr, lo: int, hi: int) -> Result<(int, int, Repr), SpecError> {
    if !rp.signed && lo < 0 {
        Err(SpecError::SignMismatch)
    } else {
        let below = match rp.min_spec() {
            Some(mn) => lo < mn,
            None => false,
        };
        let above = match rp.max_spec() {
            Some(mx) => hi > mx,
            None => false,
        };
        if below {
            Err(SpecError::ReprTooNarrow { bound: Bound::Low })
        } else if above {
            Err(SpecError::ReprTooNarrow { bound: Bound::High })
        } else {
            Ok((lo, hi, rp))
        }
    }
}

/// Resolution of the range and representation once the explicit
/// representation, if any, is known.
pub open spec fn resolve_bounds_spec(decl: Declaration, explicit: Option<Repr>) -> Result<
    (int, int, Repr),
    SpecError,
> {
    match (decl.low, decl.high) {
        (Some(low_expr), Some(high_expr)) => match eval_spec(low_expr) {
            Err(e) => Err(SpecError::Eval { bound: Bound::Low, error: e }),
            Ok(lo) => match eval_spec(high_expr) {
                Err(e) => Err(SpecError::Eval { bound: Bound::High, error: e }),
                Ok(hi_raw) => {
                    let hi = if decl.inclusive {
                        hi_raw
                    } else {
                        hi_raw - 1
                    };
                    if lo >= hi {
                        Err(SpecError::EmptyOrInvertedRange)
                    } else {
                        match explicit {
                            Some(rp) => validate_spec(rp, lo, hi),
                            None => match Repr::select_spec(lo, hi) {
                                Some(rp) => Ok((lo, hi, rp)),
                                None => Err(SpecError::RangeTooWide),
                            },
                        }
                    }
                },
            },
        },
        _ => Err(SpecError::UnboundedRange),
    }
}

/// The exact outcome of resolving a declaration: the resolved bounds and
/// representation, or the first error in resolution order.
pub open spec fn resolve_spec(decl: Declaration) -> Result<(int, int, Repr), SpecError> {
    match decl.repr {
        Some(s) => match Repr::from_name_spec(s@) {
            None => Err(SpecError::UnknownRepr),
            Some(rp) => resolve_bounds_spec(decl, Some(rp)),
        },
        None => resolve_bounds_spec(decl, None),
    }
}

/// Resolves a declaration into a type specification.
///
/// The endpoints are evaluated as constant expressions; an exclusive upper
/// bound is normalized by subtracting one; the low bound must then be
/// strictly below the high one; an explicit representation is validated
/// against the bounds, and otherwise the smallest fitting one is selected.
/// Name, kind, visibility, attributes and library location pass through,
/// the location defaulting to the canonical built-in path.
pub fn parse(decl: Declaration) -> (r: Result<TypeSpec, SpecError>)
    ensures
        match r {
            Ok(ts) => {
                &&& resolve_spec(decl) == Ok::<(int, int, Repr), SpecError>(
                    (ts.range.low.as_int(), ts.range.high.as_int(), ts.repr),
                )
                &&& ts.wf()
                &&& ts.kind == decl.kind
                &&& ts.name == decl.name
                &&& ts.vis == decl.vis
                &&& ts.attrs == decl.attrs
                &&& match decl.location {
                    Some(l) => ts.location == l,
                    None => ts.location@ == "::bounded_integer"@,
                }
            },
            Err(e) => resolve_spec(decl) == Err::<(int, int, Repr), SpecError>(e),
        },
{
    let Declaration { kind, name, vis, attrs, repr, location, low, high, inclusive } = decl;
    let explicit: Option<Repr> = match &repr {
        Some(s) => match Repr::from_name(s) {
            Some(rp) => Some(rp),
            None => {
                return Err(SpecError::UnknownRepr);
            },
        },
        None => None,
    };
    let low_expr = match low {
        Some(e) => e,
        None => {
            return Err(SpecError::UnboundedRange);
        },
    };
    let high_expr = match high {
        Some(e) => e,
        None => {
            return Err(SpecError::UnboundedRange);
        },
    };
    let lo = match evaluate(&low_expr) {
        Ok(v) => v,
        Err(e) => {
            return Err(SpecError::Eval { bound: Bound::Low, error: e });
        },
    };
    let hi = match evaluate(&high_expr) {
        Ok(v) => v,
        Err(e) => {
            return Err(SpecError::Eval { bound: Bound::High, error: e });
        },
    };
    let hi = if inclusive {
        hi
    } else {
        let one = BigValue::from_u128(1);
        big_sub(&hi, &one)
    };
    if !big_lt(&lo, &hi) {
        return Err(SpecError::EmptyOrInvertedRange);
    }
    let chosen: Repr = match explicit {
        Some(rp) => {
            if !rp.signed && lo.is_negative() {
                return Err(SpecError::SignMismatch);
            }
            match rp.minimum() {
                Some(mn) => {
                    if big_lt(&lo, &mn) {
                        return Err(SpecError::ReprTooNarrow { bound: Bound::Low });
                    }
                },
                None => {},
            }
            match rp.maximum() {
                Some(mx) => {
                    if big_lt(&mx, &hi) {
                        return Err(SpecError::ReprTooNarrow { bound: Bound::High });
                    }
                },
                None => {},
            }
            rp
        },
        None => {
            match Repr::smallest_repr(&lo, &hi) {
                Some(rp) => {
                    proof {
                        lemma_select_fits(lo.as_int(), hi.as_int());
                    }
                    rp
                },
                None => {
                    return Err(SpecError::RangeTooWide);
                },
            }
        },
    };
    let loc = match location {
        Some(l) => l,
        None => String::from_str("::bounded_integer"),
    };
    Ok(
        TypeSpec {
            kind,
            name,
            vis,
            attrs,
            repr: chosen,
            range: ResolvedRange { low: lo, high: hi },
            location: loc,
        },
    )
}

} // verus!
