//! The transport gate.
//!
//! Before a body is decoded as JSON, the raw transport response is
//! validated: the status class decides whether decoding proceeds at all,
//! and a present `Content-Type` header must announce JSON.  Both checks
//! are pure functions of plain values, so the caller that performs the
//! network exchange hands in the status code, the header and the body.

use vstd::prelude::*;

use crate::error::Error;

verus! {

/// What the library reads of an HTTP response: its status code, its
/// `Content-Type` header if one was present, and its body text.
#[derive(Debug, Clone, PartialEq)]
pub struct RawResponse {
    pub status: u16,
    pub content_type: Option<String>,
    pub body: String,
}

/// Statuses in the informational, success and redirection classes
/// proceed, and so does anything outside the standard classes: the
/// remote service occasionally answers from non-standard ranges.
pub open spec fn status_proceeds(status: u16) -> bool {
    !(400 <= status < 600)
}

pub open spec fn is_client_error(status: u16) -> bool {
    400 <= status < 500
}

pub open spec fn is_server_error(status: u16) -> bool {
    500 <= status < 600
}

/// Passes a response through when its status class allows decoding, and
/// turns a client-error or server-error status into the matching error,
/// carrying the response itself.
pub fn validate_status(response: RawResponse) -> (r: Result<RawResponse, Error>)
    ensures
        match r {
            Ok(out) => status_proceeds(response.status) && out == response,
            Err(e) => {
                &&& !status_proceeds(response.status)
                &&& is_client_error(response.status)
                    ==> (e matches Error::ClientError(res) && res == response)
                &&& is_server_error(response.status)
                    ==> (e matches Error::ServerError(res) && res == response)
            },
        },
{
    if response.status >= 400 && response.status < 500 {
        Err(Error::ClientError(response))
    } else if response.status >= 500 && response.status < 600 {
        Err(Error::ServerError(response))
    } else {
        Ok(response)
    }
}

/// Whether `p` is a prefix of `s`, character for character.
pub open spec fn spec_starts_with(s: Seq<char>, p: Seq<char>) -> bool {
    s.len() >= p.len() && s.take(p.len() as int) == p
}

pub fn str_starts_with(s: &str, p: &str) -> (r: bool)
    ensures
        r == spec_starts_with(s@, p@),
{
    let n = s.unicode_len();
    let m = p.unicode_len();
    if n < m {
        return false;
    }
    let mut i: usize = 0;
    while i < m
        invariant
            0 <= i <= m,
            m <= n,
            n == s@.len(),
            m == p@.len(),
            forall|k: int| 0 <= k < i ==> s@[k] == p@[k],
        decreases m - i,
    {
        if s.get_char(i) != p.get_char(i) {
            proof {
                assert(s@.take(p@.len() as int)[i as int] != p@[i as int]);
            }
            return false;
        }
        i = i + 1;
    }
    proof {
        assert(s@.take(p@.len() as int) =~= p@);
    }
    true
}

/// The `Content-Type` value that allows decoding to proceed: anything
/// starting with `application/json`.  A missing header also proceeds,
/// because some error responses omit it.
pub open spec fn content_type_ok(content_type: Option<String>) -> bool {
    match content_type {
        Some(v) => spec_starts_with(v@, "application/json"@),
        None => true,
    }
}

/// Passes a response through when its `Content-Type` header, if present,
/// announces JSON; otherwise fails with the observed header value.
pub fn validate_content_type(response: RawResponse) -> (r: Result<RawResponse, Error>)
    ensures
        match r {
            Ok(out) => content_type_ok(response.content_type) && out == response,
            Err(e) => {
                &&& !content_type_ok(response.content_type)
                &&& e matches Error::InvalidContentType(observed)
                &&& response.content_type matches Some(v) && observed@ == v@
            },
        },
{
    match &response.content_type {
        Some(hv) => {
            if str_starts_with(hv.as_str(), "application/json") {
                Ok(response)
            } else {
                let observed = hv.clone();
                Err(Error::InvalidContentType(observed))
            }
        },
        None => Ok(response),
    }
}

} // verus!
