//! Requests: the method, the target, and the request as it is handed to the
//! transport.

use crate::client::entries::lemma_as_map_at;
use crate::client::entries::strictly_ascending;
use crate::client::error::Error;
use crate::client::error::ErrorView;
use crate::client::headers::merged;
use crate::client::headers::HeaderSet;
use crate::client::name_order::lemma_name_asymmetric;
use crate::client::name_order::lemma_name_connected;
use crate::client::name_order::lemma_name_transitive;
use crate::client::name_order::name_precedes;
use crate::client::trusted::find_header_fault;
use crate::client::trusted::header_fault;
use crate::client::trusted::uri_fault;
use vstd::prelude::*;
use vstd::utf8::encode_utf8;

verus! {

/// The methods that the client issues requests with.
#[derive(Clone, Copy, Debug, PartialEq, Eq, Structural)]
pub enum Method {
    Get,
    Post,
    Put,
    Patch,
    Delete,
}

/// What is fixed when a builder is made: the method and the target.
#[derive(Debug)]
pub struct RequestHead {
    pub method: Method,
    pub uri: String,
}

/// A request head as the contracts see it.
pub struct RequestHeadView {
    pub method: Method,
    pub uri: Seq<char>,
}

impl View for RequestHead {
    type V = RequestHeadView;

    open spec fn view(&self) -> RequestHeadView {
        RequestHeadView { method: self.method, uri: self.uri@ }
    }
}

/// A request head, or the failure that took its place, as the contracts see
/// them.
pub open spec fn head_view(head: Result<RequestHead, Error>) -> Result<RequestHeadView, ErrorView> {
    match head {
        Ok(head) => Ok(head@),
        Err(error) => Err(error@),
    }
}

/// The target of a request, or the failure that took its place, as the
/// contracts see them.
pub open spec fn target_view(target: Result<String, Error>) -> Result<Seq<char>, ErrorView> {
    match target {
        Ok(uri) => Ok(uri@),
        Err(error) => Err(error@),
    }
}

/// What becomes of a target once it is known what, if anything, was found
/// wrong with it as a URL: the target itself where nothing was, and else the
/// failure of kind URL that holds the target and the fault.
pub open spec fn target_checked(url: Seq<char>, fault: Option<Seq<char>>) -> Result<
    Seq<char>,
    ErrorView,
> {
    match fault {
        None => Ok(url),
        Some(reason) => Err(ErrorView::Url { target: url, reason }),
    }
}

/// The head of a request with method `method` to `url`: the failure of kind
/// URL where the `http` crate does not read `url` as a URL.
pub open spec fn head_for(url: Seq<char>, method: Method) -> Result<RequestHeadView, ErrorView> {
    match target_checked(url, uri_fault(url)) {
        Ok(uri) => Ok(RequestHeadView { method, uri }),
        Err(error) => Err(error),
    }
}

/// The target `url`, where `fault` tells that nothing was found wrong with it
/// as a URL; else the failure of kind URL that holds `url` and the fault.
pub fn checked_target(url: &str, fault: Option<String>) -> (target: Result<String, Error>)
    ensures
        target_view(target) == target_checked(url@, fault.deep_view()),
{
    match fault {
        None => Ok(url.to_owned()),
        Some(reason) => Err(Error::Url { target: url.to_owned(), reason }),
    }
}

/// A request as the transport has to send it.
#[derive(Debug)]
pub struct Request {
    pub method: Method,
    pub uri: String,
    /// The headers: the client's defaults with the headers of this request
    /// merged over them.
    pub headers: HeaderSet,
    /// The body. A request without a payload has the empty body.
    pub body: Vec<u8>,
}

/// A request as the contracts see it.
pub struct RequestView {
    pub method: Method,
    pub uri: Seq<char>,
    pub headers: Map<Seq<char>, Seq<char>>,
    pub body: Seq<u8>,
}

impl View for Request {
    type V = RequestView;

    open spec fn view(&self) -> RequestView {
        RequestView {
            method: self.method,
            uri: self.uri@,
            headers: self.headers@,
            body: self.body@,
        }
    }
}

/// The request that is formed from a head, a set of headers and a body, where
/// `refused` tells of the header that could not be attached, if there is one,
/// by its name and by what was found wrong with it; the failure of kind
/// request, with both in it, where there is.
pub open spec fn formed(
    head: RequestHeadView,
    headers: Map<Seq<char>, Seq<char>>,
    refused: Option<(Seq<char>, Seq<char>)>,
    body: Seq<u8>,
) -> Result<RequestView, ErrorView> {
    match refused {
        Some((header, reason)) => Err(ErrorView::Request { header, reason }),
        None => Ok(RequestView { method: head.method, uri: head.uri, headers, body }),
    }
}

/// The number of bytes that the name of a header must stay under.
pub const NAME_BYTES_LIMIT: usize = 65536;

/// What is found wrong with a header whose name is too long.
pub const NAME_TOO_LONG: &'static str = "header name too long";

/// What stands in the way of attaching a header with this name and this
/// value to a request. A name of `NAME_BYTES_LIMIT` bytes or more is too
/// long, whatever the value. A shorter name goes to the `http` crate, and the
/// fault is what that crate finds wrong with the header. `None` where the
/// header can be attached.
pub open spec fn fault_of(name: Seq<char>, value: Seq<char>) -> Option<Seq<char>> {
    if encode_utf8(name).len() >= NAME_BYTES_LIMIT {
        Some(NAME_TOO_LONG@)
    } else {
        header_fault(name, value)
    }
}

/// The set `headers` holds `name`, and this header cannot be attached to a
/// request.
pub open spec fn refused(headers: Map<Seq<char>, Seq<char>>, name: Seq<char>) -> bool {
    headers.contains_key(name) && fault_of(name, headers[name]) is Some
}

/// `name` is the first of the refused headers of `headers`, in the order of
/// the names.
pub open spec fn refused_first(headers: Map<Seq<char>, Seq<char>>, name: Seq<char>) -> bool {
    &&& refused(headers, name)
    &&& forall|other: Seq<char>| #[trigger]
        refused(headers, other) ==> other == name || name_precedes(name, other)
}

/// The first refused header of `headers`, in the order of the names: its
/// name, and what was found wrong with it; `None` where every header can be
/// attached.
pub open spec fn first_refused(headers: Map<Seq<char>, Seq<char>>) -> Option<
    (Seq<char>, Seq<char>),
> {
    if exists|name: Seq<char>| refused(headers, name) {
        let first = choose|name: Seq<char>| refused_first(headers, name);
        Some((first, fault_of(first, headers[first])->0))
    } else {
        None
    }
}

/// What the assembly of a request yields. A failure that came with the head
/// is kept as it is. Otherwise the headers of the request are merged over the
/// client's defaults; where one of them cannot be attached, the outcome is
/// the failure of kind request that tells of the first such header; else it
/// is the request with the merged headers and the body.
pub open spec fn assembled(
    defaults: Map<Seq<char>, Seq<char>>,
    head: Result<RequestHeadView, ErrorView>,
    headers: Map<Seq<char>, Seq<char>>,
    body: Seq<u8>,
) -> Result<RequestView, ErrorView> {
    match head {
        Err(error) => Err(error),
        Ok(head) => formed(
            head,
            merged(defaults, headers),
            first_refused(merged(defaults, headers)),
            body,
        ),
    }
}

/// What an assembled request is made of. Its method and target are those of
/// the head and its body is the body that was given. Its headers are the
/// headers of the request merged over the defaults: each header of the
/// request with its value, and each default that the request does not
/// override. And every one of them can be attached: its name is short
/// enough, and the `http` crate finds nothing wrong with it.
pub proof fn lemma_assembled_request(
    defaults: Map<Seq<char>, Seq<char>>,
    head: Result<RequestHeadView, ErrorView>,
    headers: Map<Seq<char>, Seq<char>>,
    body: Seq<u8>,
)
    requires
        assembled(defaults, head, headers, body) is Ok,
    ensures
        head is Ok,
        assembled(defaults, head, headers, body)->Ok_0 == (RequestView {
            method: head->Ok_0.method,
            uri: head->Ok_0.uri,
            headers: merged(defaults, headers),
            body,
        }),
        forall|name: Seq<char>| #[trigger]
            headers.contains_key(name) ==> merged(defaults, headers).contains_key(name) && merged(
                defaults,
                headers,
            )[name] == headers[name],
        forall|name: Seq<char>|
            defaults.contains_key(name) && !headers.contains_key(name) ==> #[trigger] merged(
                defaults,
                headers,
            ).contains_key(name) && merged(defaults, headers)[name] == defaults[name],
        forall|name: Seq<char>| #[trigger]
            merged(defaults, headers).contains_key(name) ==> encode_utf8(name).len()
                < NAME_BYTES_LIMIT && header_fault(name, merged(defaults, headers)[name]) is None,
{
    assert forall|name: Seq<char>| #[trigger]
        merged(defaults, headers).contains_key(name) implies encode_utf8(name).len()
        < NAME_BYTES_LIMIT && header_fault(name, merged(defaults, headers)[name]) is None by {
        assert(!refused(merged(defaults, headers), name));
    }
}

/// What a failed assembly reports. It is the failure that came with the
/// head, unchanged; or, where the head was sound, the failure of kind request
/// that tells of the first header, in the order of the names, that cannot be
/// attached: its name, and what was found wrong with it.
pub proof fn lemma_assembled_failure(
    defaults: Map<Seq<char>, Seq<char>>,
    head: Result<RequestHeadView, ErrorView>,
    headers: Map<Seq<char>, Seq<char>>,
    body: Seq<u8>,
)
    requires
        defaults.dom().finite(),
        headers.dom().finite(),
        assembled(defaults, head, headers, body) is Err,
    ensures
        head is Err ==> assembled(defaults, head, headers, body) == Err::<RequestView, ErrorView>(
            head->Err_0,
        ),
        head is Ok ==> exists|name: Seq<char>|
            refused_first(merged(defaults, headers), name) && assembled(
                defaults,
                head,
                headers,
                body,
            ) == Err::<RequestView, ErrorView>(
                ErrorView::Request {
                    header: name,
                    reason: fault_of(name, merged(defaults, headers)[name])->0,
                },
            ),
{
    if head is Ok {
        let all = merged(defaults, headers);
        assert(all.dom() =~= defaults.dom().union(headers.dom()));
        lemma_refused_first_exists(all);
    }
}

/// In a finite set that holds a refused header, one of the refused headers
/// is the first in the order of the names.
pub proof fn lemma_refused_first_exists(headers: Map<Seq<char>, Seq<char>>)
    requires
        headers.dom().finite(),
        exists|name: Seq<char>| refused(headers, name),
    ensures
        exists|first: Seq<char>| refused_first(headers, first),
    decreases headers.len(),
{
    let x = choose|name: Seq<char>| refused(headers, name);
    if !refused_first(headers, x) {
        // Some refused header comes before `x`. The first of the refused
        // headers of the set without `x` is then the first of them all.
        let y = choose|other: Seq<char>|
            refused(headers, other) && other != x && !name_precedes(x, other);
        lemma_name_connected(x, y);
        let rest = headers.remove(x);
        assert(refused(rest, y));
        lemma_refused_first_exists(rest);
        let z = choose|first: Seq<char>| refused_first(rest, first);
        assert forall|other: Seq<char>| #[trigger]
            refused(headers, other) implies other == z || name_precedes(z, other) by {
            if other == x {
                if z != y {
                    lemma_name_transitive(z, y, x);
                }
            } else {
                assert(refused(rest, other));
            }
        }
        assert(refused_first(headers, z));
    }
}

/// Among the refused headers of a set there is at most one first.
pub proof fn lemma_refused_first_unique(
    headers: Map<Seq<char>, Seq<char>>,
    a: Seq<char>,
    b: Seq<char>,
)
    requires
        refused_first(headers, a),
        refused_first(headers, b),
    ensures
        a == b,
{
    if a != b {
        lemma_name_asymmetric(a, b);
    }
}

/// A request, or the failure that took its place, as the contracts see them.
pub open spec fn outcome_view(outcome: Result<Request, Error>) -> Result<RequestView, ErrorView> {
    match outcome {
        Ok(request) => Ok(request@),
        Err(error) => Err(error@),
    }
}


/// What stands in the way of attaching the header to a request, if anything
/// does. A name that is too long is found here; a shorter one goes to the
/// `http` crate.
pub fn find_fault(name: &str, value: &str) -> (fault: Option<String>)
    ensures
        fault.deep_view() == fault_of(name@, value@),
{
    if name.as_bytes().len() >= NAME_BYTES_LIMIT {
        Some(NAME_TOO_LONG.to_owned())
    } else {
        find_header_fault(name, value)
    }
}

impl Request {
    /// The first header of `headers`, in the order of the names, that cannot
    /// be attached to a request: its name, and what was found wrong with it;
    /// `None` where all of them can.
    pub fn refused_header(headers: &HeaderSet) -> (refused: Option<(String, String)>)
        ensures
            refused.deep_view() == first_refused(headers@),
    {
        proof {
            use_type_invariant(headers);
        }
        let ghost s = headers.entries();
        let n: usize = headers.len();
        let mut i: usize = 0;
        while i < n
            invariant
                s == headers.entries(),
                strictly_ascending(s),
                n == s.len(),
                i <= n,
                forall|k: int| 0 <= k < i ==> fault_of((#[trigger] s[k]).0, s[k].1) is None,
            decreases n - i,
        {
            match headers.entry(i) {
                Some((name, value)) => {
                    if let Some(reason) = find_fault(name.as_str(), value.as_str()) {
                        proof {
                            let found = s[i as int].0;
                            lemma_as_map_at(s, i as int);
                            let chosen = choose|name: Seq<char>| refused_first(headers@, name);
                            lemma_refused_first_unique(headers@, found, chosen);
                        }
                        return Some((name.clone(), reason));
                    }
                },
                None => {},
            }
            i = i + 1;
        }
        None
    }

    /// Forms the request from its parts. `refused` tells of the header that
    /// could not be attached, if there is one, by its name and by what was
    /// found wrong with it: the outcome is then the failure of kind request,
    /// with both in it.
    pub fn form(
        head: RequestHead,
        headers: HeaderSet,
        refused: Option<(String, String)>,
        body: Vec<u8>,
    ) -> (outcome: Result<Request, Error>)
        ensures
            outcome_view(outcome) == formed(head@, headers@, refused.deep_view(), body@),
    {
        match refused {
            Some((header, reason)) => Err(Error::Request { header, reason }),
            None => Ok(Request { method: head.method, uri: head.uri, headers, body }),
        }
    }
}

} // verus!
