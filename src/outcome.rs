//! Checks on which variant a result holds; the payload is never inspected.
use vstd::prelude::*;

verus! {

/// Checks that the result is a failure: `true` for an `Err`, `false` for an
/// `Ok`, whatever the payload.
pub fn error<S, E>(result: Result<S, E>) -> (r: bool)
    ensures
        r <==> result is Err,
{
    match result {
        Ok(..) => false,
        Err(..) => true,
    }
}

/// Checks that the result is a success: `true` for an `Ok`, `false` for an
/// `Err`, whatever the payload.
pub fn success<S, E>(result: Result<S, E>) -> (r: bool)
    ensures
        r <==> result is Ok,
{
    match result {
        Ok(..) => true,
        Err(..) => false,
    }
}

} // verus!
