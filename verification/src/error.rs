//! The ways in which a division fails.

use vstd::prelude::*;

verus! {

/// A denominator was zero, and the strategy in force was to fail.
#[derive(Clone, Copy, Debug, PartialEq, Eq, Structural)]
pub struct DivisionByZeroError;

impl DivisionByZeroError {
    /// The message that describes the failure.
    pub fn message(&self) -> (text: String)
        ensures
            text@ == "Encountered division by zero"@,
    {
        "Encountered division by zero".to_string()
    }
}

/// Why a division gave no result.
#[derive(Clone, Copy, Debug, PartialEq, Eq, Structural)]
pub enum DivideError {
    /// The numerator and the denominator are not of the same shape.
    ShapeMismatch,
    /// A denominator was zero, and the strategy in force was to fail.
    DivisionByZero(DivisionByZeroError),
}

} // verus!
