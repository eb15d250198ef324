use vstd::prelude::*;
use crate::model::LookupError;

verus! {

/// An HTTP status code in the 2xx range counts as success.
pub open spec fn spec_is_success_status(status: u16) -> bool {
    200 <= status < 300
}

/// Executable check that a status code lies in the success range.
pub fn is_success_status(status: u16) -> (r: bool)
    ensures
        r == spec_is_success_status(status),
{
    200 <= status && status < 300
}

/// Maps a lookup failure to the HTTP status code the boundary answers with:
/// 404 for a species that does not exist, 500 for every other failure.
pub fn error_to_status(err: &LookupError) -> (r: u16)
    ensures
        r == (if err is NotFound {
            404u16
        } else {
            500u16
        }),
{
    match err {
        LookupError::NotFound(_) => 404,
        _ => 500,
    }
}

} // verus!
