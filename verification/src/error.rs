//! The ways in which fixed-point arithmetic fails.

use vstd::prelude::*;

verus! {

/// Why a checked fixed-point operation gave no value.
#[derive(Clone, Copy, Debug, PartialEq, Eq, Structural, Hash)]
pub enum ArithmeticError {
    /// The result does not fit in the storage integer.
    Overflow,
    /// The divisor is zero.
    DivisionByZero,
}

} // verus!
