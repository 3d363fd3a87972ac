//! Decisions of the plain-HTTP to HTTPS redirect.
//!
//! A request arriving on the plain-HTTP side is answered with a redirect
//! to the same resource on the TLS port. Rewriting the URL itself runs
//! through outside URI and URL parsers; what is decided here is the
//! path-and-query the redirect keeps — a request without one is sent to
//! the root — the port the rewritten URL points at, and the response each
//! rewrite outcome maps to.

use vstd::prelude::*;

verus! {

use vstd::string::StringExecFns;

/// Why a requested URL could not be rewritten onto the TLS port.
#[derive(Clone, Copy, Debug, PartialEq, Eq, Structural)]
pub enum HttpToHttpsError {
    /// The request's host is not a valid authority.
    InvalidUri,
    /// The rewritten parts do not assemble into a URI.
    InvalidUriParts,
    /// The assembled URI is not a parseable URL.
    ParseError,
    /// The scheme could not be set on the URL.
    Scheme,
    /// The port could not be set on the URL.
    Port,
}

/// The TLS port every redirect points at.
pub const HTTPS_REDIRECT_PORT: u16 = 3000;

/// The path-and-query a redirect keeps: the requested one, or the root
/// when the request carried none.
pub fn redirect_path_and_query(path_and_query: Option<String>) -> (p: String)
    ensures
        path_and_query matches Some(s) ==> p == s,
        path_and_query is None ==> p@ == "/"@,
{
    match path_and_query {
        Some(p) => p,
        None => String::from_str("/"),
    }
}

/// The response of the redirect handler: a permanent redirect (HTTP 308)
/// to the rewritten URL when the rewrite succeeded, and a plain 400 when
/// the requested host or URL could not be parsed.
pub fn redirect_response_status(outcome: &Result<String, HttpToHttpsError>) -> (code: u16)
    ensures
        outcome is Ok ==> code == 308,
        outcome is Err ==> code == 400,
{
    match outcome {
        Ok(_) => 308,
        Err(_) => 400,
    }
}

} // verus!
