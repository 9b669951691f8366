//! The builder of a request without a body.

use crate::client::error::Error;
use crate::client::error::ErrorView;
use crate::client::headers::HeaderSet;
use crate::client::request::assembled;
use crate::client::request::head_view;
use crate::client::request::RequestHead;
use crate::client::request::RequestView;
use crate::client::response_future::ResponseFuture;
use crate::client::HttperClient;
use vstd::prelude::*;

verus! {

/// A request without a body that is still being built.
///
/// The builder is used up by each call: `headers` hands back a new builder,
/// and after `send` there is none left.
#[derive(Debug)]
pub struct Get<'a> {
    /// The head of the request; or the failure that `send` will report.
    pub request_builder: Result<RequestHead, Error>,
    pub client: &'a HttperClient,
    /// The headers of this request. They are merged over the client's
    /// defaults when the request is sent, not before.
    pub headers: HeaderSet,
}

impl<'a> Get<'a> {
    /// The builder that `headers` yields.
    pub open spec fn with_headers(self, headers: HeaderSet) -> Get<'a> {
        Get { request_builder: self.request_builder, client: self.client, headers }
    }

    /// What `send` assembles: the request, or the failure.
    pub open spec fn sent(self) -> Result<RequestView, ErrorView> {
        assembled(
            self.client.defaults(),
            head_view(self.request_builder),
            self.headers@,
            Seq::<u8>::empty(),
        )
    }

    /// Creates a new `Get`, with no headers of its own.
    pub fn new(request_builder: Result<RequestHead, Error>, client: &'a HttperClient) -> (builder:
        Get<'a>)
        ensures
            builder.request_builder == request_builder,
            builder.client == client,
            builder.headers@ == Map::<Seq<char>, Seq<char>>::empty(),
    {
        Get { request_builder, client, headers: HeaderSet::new() }
    }

    /// Gives the request the headers `headers`, in place of those that the
    /// builder held.
    pub fn headers(self, headers: HeaderSet) -> (builder: Get<'a>)
        ensures
            builder == self.with_headers(headers),
    {
        Get { headers, request_builder: self.request_builder, client: self.client }
    }

    /// Forms the request, with the empty body, and returns the pending
    /// response.
    pub fn send(self) -> (future: ResponseFuture)
        ensures
            future@ == self.sent(),
    {
        self.client.send_request(self.request_builder, Vec::new(), &self.headers)
    }
}

/// A failure that a builder has carried since it was made is what `send`
/// reports, whatever headers the builder was given since.
pub proof fn lemma_get_keeps_failure(builder: Get, headers: HeaderSet)
    requires
        builder.request_builder is Err,
    ensures
        builder.with_headers(headers).request_builder == builder.request_builder,
        builder.sent() == Err::<RequestView, ErrorView>(builder.request_builder->Err_0@),
        builder.with_headers(headers).sent() == builder.sent(),
{
}

} // verus!
