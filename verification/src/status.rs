//! Classification of completed HTTP exchanges.
//!
//! Every outbound call ends here: a 2xx status is success, anything else is
//! a typed failure carrying the status and the raw body text. The one
//! intent-dependent branch is the existence probe, where 404 is a
//! legitimate "not found" answer rather than an error.

use vstd::prelude::*;

verus! {

/// The status an existence probe reinterprets as "not found".
pub const STATUS_NOT_FOUND: u16 = 404;

/// A status code reports success exactly when it lies in the 2xx range.
pub open spec fn spec_is_success(status: u16) -> bool {
    200 <= status < 300
}

/// Exact exec mirror of [`spec_is_success`].
pub fn status_is_success(status: u16) -> (r: bool)
    ensures
        r == spec_is_success(status),
{
    200 <= status && status < 300
}

/// Classify a call that must succeed: `Ok` on any 2xx status, otherwise the
/// status code and the raw response body, kept verbatim for diagnostics.
pub fn require_success(status: u16, body: String) -> (r: Result<(), (u16, String)>)
    ensures
        r is Ok <==> spec_is_success(status),
        !spec_is_success(status) ==> r == Err::<(), (u16, String)>((status, body)),
{
    if 200 <= status && status < 300 {
        Ok(())
    } else {
        Err((status, body))
    }
}

/// Classify an existence probe: 404 means "not found" and is no error,
/// any 2xx means "found", and every other status is a hard failure
/// carrying the status code and the raw body.
pub fn probe_outcome(status: u16, body: String) -> (r: Result<bool, (u16, String)>)
    ensures
        r == Ok::<bool, (u16, String)>(true) <==> spec_is_success(status),
        r == Ok::<bool, (u16, String)>(false) <==> status == STATUS_NOT_FOUND,
        !spec_is_success(status) && status != STATUS_NOT_FOUND ==> r == Err::<
            bool,
            (u16, String),
        >((status, body)),
{
    if 200 <= status && status < 300 {
        Ok(true)
    } else if status == STATUS_NOT_FOUND {
        Ok(false)
    } else {
        Err((status, body))
    }
}

} // verus!
