//! What the relay keeps of an HTTP response.

use vstd::prelude::*;

verus! {

/// A response as it arrived: the status code, the status as the transport
/// prints it, and the body.
#[derive(Debug, PartialEq, Eq)]
pub struct HttpAnswer {
    pub status: u16,
    pub status_text: String,
    pub body: String,
}

/// A status code in the range that counts as success.
pub open spec fn is_success(status: u16) -> bool {
    200 <= status < 300
}

/// Whether a status code counts as success.
pub fn status_is_success(status: u16) -> (r: bool)
    ensures
        r == is_success(status),
{
    200 <= status && status < 300
}

} // verus!
