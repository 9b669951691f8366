//! HTTPer client.
//!
//! To make a request, take an `HttperClient` and call the method that is
//! named after the HTTP method: `get`, `post`, `put`, `patch` or `delete`.
//! Each returns a builder. Give it headers, and a payload where the method
//! takes one, and call `send`: that forms the request and returns the pending
//! response. Nothing goes to the network before `send`, and `send` uses the
//! builder up.
//!
//! A client holds the headers that every request gets by default. It is never
//! changed after it was made, so any number of requests can be built from one
//! client side by side.

pub mod entries;
pub mod error;
pub mod get;
pub mod headers;
pub mod json;
pub mod name_order;
pub mod payload_builder;
pub mod request;
pub mod response_future;
pub mod trusted;

use crate::client::error::Error;
use crate::client::get::Get;
use crate::client::headers::HeaderSet;
use crate::client::payload_builder::body_of;
use crate::client::payload_builder::PayloadBuilder;
use crate::client::request::assembled;
use crate::client::request::checked_target;
use crate::client::request::head_for;
use crate::client::request::head_view;
use crate::client::request::target_checked;
use crate::client::request::target_view;
use crate::client::request::Method;
use crate::client::request::Request;
use crate::client::request::RequestHead;
use crate::client::response_future::ResponseFuture;
use crate::client::trusted::find_uri_fault;
use crate::client::trusted::lowercased;
use crate::client::trusted::uri_fault;
use crate::client::trusted::user_agent_name;
use vstd::prelude::*;
use vstd::string::StringExecFns;

verus! {

/// The name by which the client makes itself known.
pub const PKG_NAME: &'static str = "httper";

/// The version by which the client makes itself known.
pub const PKG_VERSION: &'static str = "0.1.0";

/// What stands for the name of a client whose name is not known.
pub const UNKNOWN_NAME: &'static str = "unknown_name";

/// What stands for the version of a client whose version is not known.
pub const UNKNOWN_VERSION: &'static str = "unknown_version";

/// The text by which a client of this name and this version makes itself
/// known: the name, a slash, and the version. What is not known is said to be
/// unknown.
pub open spec fn agent_text(name: Option<Seq<char>>, version: Option<Seq<char>>) -> Seq<char> {
    let name = match name {
        Some(name) => name,
        None => UNKNOWN_NAME@,
    };
    let version = match version {
        Some(version) => version,
        None => UNKNOWN_VERSION@,
    };
    name + "/"@ + version
}

/// The value of the `user-agent` header that a client sends by default: its
/// name, a slash, and its version.
pub open spec fn user_agent() -> Seq<char> {
    agent_text(Some(PKG_NAME@), Some(PKG_VERSION@))
}

/// The default headers of a client that makes itself known by `agent`:
/// `user-agent` alone.
pub open spec fn headers_with_agent(agent: Seq<char>) -> Map<Seq<char>, Seq<char>> {
    Map::<Seq<char>, Seq<char>>::empty().insert(lowercased("user-agent"@), agent)
}

/// The headers that a new client gives to every request.
pub open spec fn default_headers() -> Map<Seq<char>, Seq<char>> {
    headers_with_agent(user_agent())
}

/// The text by which a client of this name and this version makes itself
/// known.
pub fn user_agent_of(name: Option<&str>, version: Option<&str>) -> (agent: String)
    ensures
        agent@ == agent_text(name.deep_view(), version.deep_view()),
{
    let mut agent = match name {
        Some(name) => name.to_owned(),
        None => UNKNOWN_NAME.to_owned(),
    };
    agent.append("/");
    match version {
        Some(version) => agent.append(version),
        None => agent.append(UNKNOWN_VERSION),
    }
    agent
}

/// A client: the headers that each of its requests gets by default.
#[derive(Debug)]
pub struct HttperClient {
    headers: HeaderSet,
}

impl Default for HttperClient {
    /// The client with the default headers.
    fn default() -> (client: HttperClient)
        ensures
            client.defaults() == default_headers(),
    {
        HttperClient::with_agent(Some(PKG_NAME), Some(PKG_VERSION))
    }
}

impl Clone for HttperClient {
    /// A client with the same default headers.
    fn clone(&self) -> (copy: HttperClient)
        ensures
            copy.defaults() == self.defaults(),
    {
        HttperClient { headers: self.headers.clone() }
    }
}

impl HttperClient {
    /// The default headers of the client, as a mapping from name to value.
    pub closed spec fn defaults(&self) -> Map<Seq<char>, Seq<char>> {
        self.headers@
    }

    /// The client that makes itself known by the given name and version,
    /// as far as they are known.
    pub fn with_agent(name: Option<&str>, version: Option<&str>) -> (client: HttperClient)
        ensures
            client.defaults() == headers_with_agent(
                agent_text(name.deep_view(), version.deep_view()),
            ),
    {
        let agent = user_agent_of(name, version);
        let mut headers = HeaderSet::new();
        headers.insert(user_agent_name().as_str(), agent.as_str());
        HttperClient { headers }
    }

    /// Creates a new `HttperClient`.
    pub fn new() -> (client: HttperClient)
        ensures
            client.defaults() == default_headers(),
    {
        HttperClient::default()
    }

    /// The default headers of the client.
    pub fn headers(&self) -> (headers: &HeaderSet)
        ensures
            headers@ == self.defaults(),
    {
        &self.headers
    }

    /// Prepares a `GET` request to `url`. Call `send` to send the request.
    pub fn get<'a>(&'a self, url: &str) -> (builder: Get<'a>)
        ensures
            head_view(builder.request_builder) == head_for(url@, Method::Get),
            builder.client == self,
            builder.headers@ == Map::<Seq<char>, Seq<char>>::empty(),
    {
        Get::new(self.request_builder(url, Method::Get), self)
    }

    /// Prepares a `POST` request to `url`. Call `send` to send the request.
    pub fn post<'a>(&'a self, url: &str) -> (builder: PayloadBuilder<'a>)
        ensures
            head_view(builder.request_builder) == head_for(url@, Method::Post),
            builder.client == self,
            builder.payload is None,
            builder.headers@ == Map::<Seq<char>, Seq<char>>::empty(),
    {
        PayloadBuilder::new(self.request_builder(url, Method::Post), self)
    }

    /// Prepares a `DELETE` request to `url`. Call `send` to send the request.
    pub fn delete<'a>(&'a self, url: &str) -> (builder: PayloadBuilder<'a>)
        ensures
            head_view(builder.request_builder) == head_for(url@, Method::Delete),
            builder.client == self,
            builder.payload is None,
            builder.headers@ == Map::<Seq<char>, Seq<char>>::empty(),
    {
        PayloadBuilder::new(self.request_builder(url, Method::Delete), self)
    }

    /// Prepares a `PUT` request to `url`. Call `send` to send the request.
    pub fn put<'a>(&'a self, url: &str) -> (builder: PayloadBuilder<'a>)
        ensures
            head_view(builder.request_builder) == head_for(url@, Method::Put),
            builder.client == self,
            builder.payload is None,
            builder.headers@ == Map::<Seq<char>, Seq<char>>::empty(),
    {
        PayloadBuilder::new(self.request_builder(url, Method::Put), self)
    }

    /// Prepares a `PATCH` request to `url`. Call `send` to send the request.
    pub fn patch<'a>(&'a self, url: &str) -> (builder: PayloadBuilder<'a>)
        ensures
            head_view(builder.request_builder) == head_for(url@, Method::Patch),
            builder.client == self,
            builder.payload is None,
            builder.headers@ == Map::<Seq<char>, Seq<char>>::empty(),
    {
        PayloadBuilder::new(self.request_builder(url, Method::Patch), self)
    }

    /// The head of a request with the given method to `url`.
    ///
    /// # Errors
    /// The failure of kind URL if `url` is not read as a URL. A builder keeps
    /// it until `send`.
    pub fn request_builder(&self, url: &str, method: Method) -> (head: Result<RequestHead, Error>)
        ensures
            head_view(head) == head_for(url@, method),
    {
        match self.parse_url(url) {
            Ok(uri) => Ok(RequestHead { method, uri }),
            Err(error) => Err(error),
        }
    }

    /// Assembles the request and returns the pending response.
    ///
    /// The headers of the request are merged over the defaults of the client,
    /// so that a default never stands in the way of a header that the caller
    /// gave. A failure that came with the head is passed on as it is; else the
    /// merged headers are attached, then the body. Where a header cannot be
    /// attached the outcome is the failure of kind request.
    pub fn send_request(
        &self,
        request_builder: Result<RequestHead, Error>,
        payload: Vec<u8>,
        headers: &HeaderSet,
    ) -> (future: ResponseFuture)
        ensures
            future@ == assembled(self.defaults(), head_view(request_builder), headers@, payload@),
    {
        let headers = HeaderSet::merge(&self.headers, headers);
        match request_builder {
            Err(error) => ResponseFuture(Err(error)),
            Ok(head) => {
                let refused = Request::refused_header(&headers);
                ResponseFuture(Request::form(head, headers, refused, payload))
            },
        }
    }

    /// Reads `url` as the target of a request.
    ///
    /// # Errors
    /// The failure of kind URL if the `http` crate does not read `url` as a
    /// URL.
    pub fn parse_url(&self, url: &str) -> (target: Result<String, Error>)
        ensures
            target_view(target) == target_checked(url@, uri_fault(url@)),
    {
        checked_target(url, find_uri_fault(url))
    }
}

/// Requests of one client are independent of each other. What a builder
/// sends is decided by its own head, headers and payload and by the defaults
/// of the client; and the headers and the payload that are given to another
/// builder of the same client change neither the client nor its defaults.
pub proof fn lemma_requests_are_independent(
    one: PayloadBuilder,
    other: PayloadBuilder,
    headers: HeaderSet,
    payload: Vec<u8>,
)
    requires
        one.client == other.client,
    ensures
        other.with_headers(headers).client == one.client,
        other.with_payload(payload).client == one.client,
        other.with_headers(headers).client.defaults() == one.client.defaults(),
        other.with_payload(payload).client.defaults() == one.client.defaults(),
        one.sent() == assembled(
            one.client.defaults(),
            head_view(one.request_builder),
            one.headers@,
            body_of(one.payload),
        ),
{
}

} // verus!
