//! HTTP status classification.

use vstd::prelude::*;

verus! {

/// Whether a status code lies in the success class, 200 to 299.
pub open spec fn spec_is_success(status: u16) -> bool {
    200 <= status <= 299
}

/// Tells whether `status` is a success status.
pub fn is_success(status: u16) -> (ok: bool)
    ensures
        ok == spec_is_success(status),
{
    200 <= status && status <= 299
}

} // verus!
