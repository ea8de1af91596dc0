//! Bounded-integer declaration compiler.
//!
//! A declaration names a closed integer range; this library evaluates the
//! range endpoints as arbitrary-precision constant expressions, selects (or
//! validates) the smallest machine representation able to hold them, and
//! produces a description of the generated type together with the runtime
//! contract every bounded integer satisfies.

pub mod big;
pub mod emit;
pub mod expr;
pub mod intmath;
pub mod parse;
pub mod repr;
pub mod runtime;
