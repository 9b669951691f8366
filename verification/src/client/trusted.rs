//! What the library believes of the code that it calls and does not verify:
//! the `http` crate, and `str::to_lowercase` of the standard library.
//!
//! Each function below makes one such call. Verus does not read their bodies
//! and takes their contracts on trust. Where a result is a function of the
//! arguments alone but too long to write out (Unicode's case tables, the URI
//! grammar), the contract gives it a name and states no more of it.

use vstd::prelude::*;
use vstd::utf8::encode_utf8;

verus! {

/// The lower-case form of a name: what `str::to_lowercase` returns for it.
pub uninterp spec fn lowercased(name: Seq<char>) -> Seq<char>;

/// What the `http` crate finds wrong with `url` as the target of a request:
/// the text of the error that `str::parse::<http::Uri>` returns for it, and
/// `None` where it returns a URI.
pub uninterp spec fn uri_fault(url: Seq<char>) -> Option<Seq<char>>;

/// What the `http` crate finds wrong with a header of this name and this
/// value: the text of the error that `body` returns on a fresh
/// `http::request::Builder` that was given the pair through `header`, and
/// `None` where it returns a request. It is asked of names of fewer than
/// 65,536 bytes alone.
pub uninterp spec fn header_fault(name: Seq<char>, value: Seq<char>) -> Option<Seq<char>>;

/// Calls `str::to_lowercase`. The contract claims that the outcome depends on
/// the characters of `name` alone, and calls it `lowercased`.
#[verifier::external_body]
pub(crate) fn lowercase(name: &str) -> (lower: String)
    ensures
        lower@ == lowercased(name@),
{
    name.to_lowercase()
}

/// Calls `str::parse::<http::Uri>` and hands back the text of its error, if
/// it returns one. The contract claims that the outcome depends on the
/// characters of `url` alone, and calls it `uri_fault`.
#[verifier::external_body]
pub(crate) fn find_uri_fault(url: &str) -> (fault: Option<String>)
    ensures
        fault.deep_view() == uri_fault(url@),
{
    match url.parse::<http::Uri>() {
        Ok(_) => None,
        Err(e) => Some(e.to_string()),
    }
}

/// Gives one header to a fresh `http::request::Builder` through `header`,
/// calls `body`, and hands back the text of its error, if it returns one. The
/// contract claims that the outcome depends on the characters of the name
/// and of the value alone, and calls it `header_fault`.
///
/// The `http` crate does not return from `header` for a name of 65,536 bytes
/// or more: it panics. Such a name is no input of this function.
#[verifier::external_body]
pub(crate) fn find_header_fault(name: &str, value: &str) -> (fault: Option<String>)
    requires
        encode_utf8(name@).len() < 65536,
    ensures
        fault.deep_view() == header_fault(name@, value@),
{
    match http::request::Builder::new().header(name, value).body(()) {
        Ok(_) => None,
        Err(e) => Some(e.to_string()),
    }
}

/// Reads `http::header::USER_AGENT`. The contract claims that this header's
/// name is `user-agent`, as the crate's table of standard headers has it.
#[verifier::external_body]
pub(crate) fn user_agent_name() -> (name: String)
    ensures
        name@ == "user-agent"@,
{
    http::header::USER_AGENT.as_str().to_string()
}

} // verus!
