//! The builder of a request that can have a body.

use crate::client::error::Error;
use crate::client::error::ErrorView;
use crate::client::headers::HeaderSet;
use crate::client::request::assembled;
use crate::client::request::head_view;
use crate::client::request::RequestHead;
use crate::client::request::RequestView;
use crate::client::response_future::ResponseFuture;
use crate::client::HttperClient;
use vstd::prelude::*;

verus! {

/// A request that can have a body and is still being built.
///
/// The builder is used up by each call: `headers` and `payload` hand back a
/// new builder, and after `send` there is none left.
#[derive(Debug)]
pub struct PayloadBuilder<'a> {
    /// The head of the request; or the failure that `send` will report.
    pub request_builder: Result<RequestHead, Error>,
    pub client: &'a HttperClient,
    /// The payload, once `payload` was called.
    pub payload: Option<Vec<u8>>,
    /// The headers of this request. They are merged over the client's
    /// defaults when the request is sent, not before.
    pub headers: HeaderSet,
}

/// The body that a request is sent with: the payload where there is one, and
/// the empty body where there is none.
pub open spec fn body_of(payload: Option<Vec<u8>>) -> Seq<u8> {
    match payload {
        Some(bytes) => bytes@,
        None => Seq::<u8>::empty(),
    }
}

impl<'a> PayloadBuilder<'a> {
    /// The builder that `headers` yields.
    pub open spec fn with_headers(self, headers: HeaderSet) -> PayloadBuilder<'a> {
        PayloadBuilder {
            request_builder: self.request_builder,
            client: self.client,
            payload: self.payload,
            headers,
        }
    }

    /// The builder that `payload` yields.
    pub open spec fn with_payload(self, payload: Vec<u8>) -> PayloadBuilder<'a> {
        PayloadBuilder {
            request_builder: self.request_builder,
            client: self.client,
            payload: Some(payload),
            headers: self.headers,
        }
    }

    /// What `send` assembles: the request, or the failure.
    pub open spec fn sent(self) -> Result<RequestView, ErrorView> {
        assembled(
            self.client.defaults(),
            head_view(self.request_builder),
            self.headers@,
            body_of(self.payload),
        )
    }

    /// Creates a new `PayloadBuilder`, with no payload and no headers of its
    /// own.
    pub fn new(request_builder: Result<RequestHead, Error>, client: &'a HttperClient) -> (builder:
        PayloadBuilder<'a>)
        ensures
            builder.request_builder == request_builder,
            builder.client == client,
            builder.payload is None,
            builder.headers@ == Map::<Seq<char>, Seq<char>>::empty(),
    {
        PayloadBuilder { request_builder, client, payload: None, headers: HeaderSet::new() }
    }

    /// Gives the request the headers `headers`, in place of those that the
    /// builder held.
    pub fn headers(self, headers: HeaderSet) -> (builder: PayloadBuilder<'a>)
        ensures
            builder == self.with_headers(headers),
    {
        PayloadBuilder {
            headers,
            request_builder: self.request_builder,
            client: self.client,
            payload: self.payload,
        }
    }

    /// Gives the request the payload `payload`, in place of the one that the
    /// builder held.
    pub fn payload(self, payload: Vec<u8>) -> (builder: PayloadBuilder<'a>)
        ensures
            builder == self.with_payload(payload),
    {
        PayloadBuilder {
            request_builder: self.request_builder,
            client: self.client,
            payload: Some(payload),
            headers: self.headers,
        }
    }

    /// Forms the request and returns the pending response. A builder that was
    /// given no payload sends the empty body.
    pub fn send(self) -> (future: ResponseFuture)
        ensures
            future@ == self.sent(),
    {
        let body = match self.payload {
            Some(bytes) => bytes,
            None => Vec::new(),
        };
        self.client.send_request(self.request_builder, body, &self.headers)
    }
}

/// A failure that a builder has carried since it was made is what `send`
/// reports, whatever headers and payload the builder was given since.
pub proof fn lemma_payload_builder_keeps_failure(
    builder: PayloadBuilder,
    headers: HeaderSet,
    payload: Vec<u8>,
)
    requires
        builder.request_builder is Err,
    ensures
        builder.with_headers(headers).request_builder == builder.request_builder,
        builder.with_payload(payload).request_builder == builder.request_builder,
        builder.sent() == Err::<RequestView, ErrorView>(builder.request_builder->Err_0@),
        builder.with_headers(headers).sent() == builder.sent(),
        builder.with_payload(payload).sent() == builder.sent(),
{
}

/// A builder that was given no payload sends a request with the empty body:
/// the body is there, and it holds nothing. Headers do not change that.
pub proof fn lemma_no_payload_empty_body(builder: PayloadBuilder, headers: HeaderSet)
    requires
        builder.payload is None,
    ensures
        builder.with_headers(headers).payload is None,
        builder.sent() matches Ok(request) ==> request.body == Seq::<u8>::empty(),
        builder.with_headers(headers).sent() matches Ok(request) ==> request.body == Seq::<
            u8,
        >::empty(),
{
}

} // verus!
