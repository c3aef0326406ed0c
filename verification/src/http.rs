use vstd::prelude::*;

verus! {

/// Whether an HTTP status code reports success: 200 to 299.
pub open spec fn is_success(status: u16) -> bool {
    200 <= status < 300
}

/// Whether an HTTP status code reports success.
pub fn status_is_success(status: u16) -> (ok: bool)
    ensures
        ok == is_success(status),
{
    200 <= status && status < 300
}

/// What came of one HTTP request.
#[derive(Debug, Clone, PartialEq, Eq)]
pub enum HttpOutcome {
    /// The request got no answer; the text says why.
    Unreachable(String),
    /// The server answered with this status and this body.
    Replied { status: u16, body: String },
}

} // verus!
