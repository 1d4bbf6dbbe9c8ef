//! HTTP status codes, as numbers and as the lines shown for them.

use crate::text::text_of;
use vstd::prelude::*;
use vstd::string::*;

verus! {

/// Whether `code` is in the success class of HTTP, 200 to 299.
pub open spec fn is_success(code: u16) -> bool {
    200 <= code < 300
}

/// The line that `reqwest::StatusCode` displays for `code`, number and
/// canonical reason (`503 Service Unavailable`); `None` where `code` is no
/// status code.
pub uninterp spec fn status_line(code: u16) -> Option<Seq<char>>;

/// Trusted: `reqwest::StatusCode::from_u16` and the `Display` of the status it
/// gives. The line is taken to depend on `code` alone.
#[verifier::external_body]
pub(crate) fn display_status(code: u16) -> (line: Option<String>)
    ensures
        text_of(line) == status_line(code),
{
    match reqwest::StatusCode::from_u16(code) {
        Ok(status) => Some(status.to_string()),
        Err(_) => None,
    }
}

/// Tells a success-class status from every other.
pub fn success(code: u16) -> (yes: bool)
    ensures
        yes == is_success(code),
{
    200 <= code && code < 300
}

} // verus!
