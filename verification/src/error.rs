//! Validation failures of the integrator.

use vstd::prelude::*;

verus! {

/// Why a pair of sample sequences was rejected before any computation.
#[derive(Clone, Copy, Debug, PartialEq, Eq, Structural)]
pub enum SimpsonError {
    /// `x` and `y` differ in length, so the pairing of abscissa and
    /// ordinate is undefined.
    LengthMismatch,
    /// The sample count is even, so the points cannot be grouped into
    /// parabolic triples.
    EvenLength,
}

impl SimpsonError {
    /// The human-readable description carried by each failure.
    pub open spec fn spec_message(self) -> Seq<char> {
        match self {
            SimpsonError::LengthMismatch => "x and y must be of equal length"@,
            SimpsonError::EvenLength => "The length of x and y must be an odd number"@,
        }
    }

    /// A diagnostic message a caller can surface as-is.
    pub fn message(&self) -> (r: String)
        ensures
            r@ == self.spec_message(),
    {
        match self {
            SimpsonError::LengthMismatch => String::from_str("x and y must be of equal length"),
            SimpsonError::EvenLength => String::from_str(
                "The length of x and y must be an odd number",
            ),
        }
    }
}

} // verus!
