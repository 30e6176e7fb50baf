//! Input validation and the discrete core of the Simpson integrator.

use vstd::prelude::*;

use crate::error::SimpsonError;
use crate::weights::spec_weight;
use crate::weights::weight;

verus! {

/// Whether a pair of sample sequences of these lengths is accepted:
/// the lengths must agree and the shared length must be odd.
pub open spec fn spec_valid(x_len: int, y_len: int) -> bool {
    x_len == y_len && x_len % 2 == 1
}

/// Fail-fast validation, run before any computation. A length mismatch is
/// reported before an even count, as the rule is undefined without the
/// pairing of abscissa and ordinate.
pub fn validate(x_len: usize, y_len: usize) -> (r: Result<(), SimpsonError>)
    ensures
        r is Ok <==> spec_valid(x_len as int, y_len as int),
        x_len != y_len ==> r == Err::<(), SimpsonError>(SimpsonError::LengthMismatch),
        x_len == y_len && x_len % 2 == 0 ==> r == Err::<(), SimpsonError>(
            SimpsonError::EvenLength,
        ),
{
    if x_len != y_len {
        Err(SimpsonError::LengthMismatch)
    } else if x_len % 2 == 0 {
        Err(SimpsonError::EvenLength)
    } else {
        Ok(())
    }
}

/// The discrete part of the Composite Simpson rule: validate the two sample
/// lengths and, on acceptance, hand back the coefficient of every index.
/// The caller multiplies each ordinate by its coefficient, sums, and scales
/// the sum by a third of the step size.
pub fn simpson_weights(x_len: usize, y_len: usize) -> (r: Result<Vec<u64>, SimpsonError>)
    ensures
        r is Ok <==> spec_valid(x_len as int, y_len as int),
        x_len != y_len ==> r == Err::<Vec<u64>, SimpsonError>(SimpsonError::LengthMismatch),
        x_len == y_len && x_len % 2 == 0 ==> r == Err::<Vec<u64>, SimpsonError>(
            SimpsonError::EvenLength,
        ),
        r matches Ok(w) ==> {
            &&& w@.len() == x_len
            &&& forall|i: int| 0 <= i < x_len ==> w@[i] == spec_weight(i, x_len as int)
        },
{
    validate(x_len, y_len)?;
    let mut w: Vec<u64> = Vec::new();
    let mut i: usize = 0;
    while i < x_len
        invariant
            i <= x_len,
            w@.len() == i,
            forall|j: int| 0 <= j < i ==> w@[j] == spec_weight(j, x_len as int),
        decreases x_len - i,
    {
        w.push(weight(i, x_len));
        i = i + 1;
    }
    Ok(w)
}

} // verus!
