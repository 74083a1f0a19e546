//! The shared-secret gate that every request passes first.
//!
//! The comparison is plain equality of the two strings; it is not made in
//! constant time.
use vstd::prelude::*;

verus! {

/// Name of the request header that carries the shared secret.
pub const AUTH_HEADER_KEY: &'static str = "secret";

/// A request is authorized when it carries the header and its value is the
/// expected secret.
pub open spec fn authorized(header: Option<String>, expected: Seq<char>) -> bool {
    match header {
        Some(v) => v@ == expected,
        None => false,
    }
}

/// Checks the value of the secret header, `None` where the request has no
/// such header or its value is not text.
pub fn valid_header(header: &Option<String>, expected: &String) -> (r: bool)
    ensures
        r == authorized(*header, expected@),
{
    match header {
        Some(value) => *value == *expected,
        None => false,
    }
}

} // verus!
