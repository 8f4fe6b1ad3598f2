//! The size check on the coordinate vectors.
//!
//! A point set is given as two vectors, its x and its y coordinates. The
//! check compares three lengths: the query's x against the query's y, and the
//! reference's x against the query's y. The length of the reference's y
//! vector is not looked at: a reference set of any other size than the query
//! set is refused even where its own two vectors agree, and a reference y
//! vector of a different length than the reference x vector is let through.

use vstd::prelude::*;
use crate::error::SpdistError;

verus! {

/// The lengths that the check accepts: the query's x and y vectors and the
/// reference's x vector are equally long.
pub open spec fn lengths_agree(x_len: nat, y_len: nat, x_ref_len: nat) -> bool {
    x_len == y_len && x_ref_len == y_len
}

/// Checks the lengths of the four coordinate vectors of a distance
/// computation: `Ok` exactly when `x_len`, `y_len` and `x_ref_len` are equal,
/// whatever `_y_ref_len` is.
pub fn check_lengths(
    x_len: usize,
    y_len: usize,
    x_ref_len: usize,
    _y_ref_len: usize,
) -> (res: Result<(), SpdistError>)
    ensures
        res is Ok <==> lengths_agree(x_len as nat, y_len as nat, x_ref_len as nat),
        x_len != y_len ==> res == Err::<(), SpdistError>(SpdistError::VectorSizeMismatch),
        x_ref_len != y_len ==> res == Err::<(), SpdistError>(SpdistError::VectorSizeMismatch),
{
    if x_len != y_len {
        return Err(SpdistError::VectorSizeMismatch);
    }
    if x_ref_len != y_len {
        return Err(SpdistError::VectorSizeMismatch);
    }
    Ok(())
}

} // verus!
