//! The pending response.
//!
//! A `ResponseFuture` is what `send` returns: the request that the transport
//! has to carry, or the failure that stands in its place. The transport works
//! outside this crate. Whoever drives it reads the request with `request`,
//! hands it over, and tells the future with `poll` what the transport has
//! reported since: nothing yet, a response, or a failure.

use crate::client::error::Error;
use crate::client::error::ErrorView;
use crate::client::json::Json;
use crate::client::request::outcome_view;
use crate::client::request::Request;
use crate::client::request::RequestView;
use std::marker::PhantomData;
use vstd::prelude::*;

verus! {

/// A response as the transport received it: the status, the headers in the
/// order of their arrival, and the body. The body is of the kind that the
/// transport hands out: a source of bytes that is still being read, or, once
/// it was read to its end, the bytes.
#[derive(Debug)]
pub struct Response<B> {
    pub status: u16,
    pub headers: Vec<(String, String)>,
    pub body: B,
}

/// What the transport has reported of an exchange since it was last asked.
#[derive(Debug)]
pub enum Event<B> {
    /// Nothing yet: the exchange is still under way.
    Pending,
    /// The response has arrived.
    Response(Response<B>),
    /// The transport failed: connection, TLS, timeout or protocol. Holds its
    /// report.
    Failure(String),
}

/// Where a future stands after it was polled.
#[derive(Debug)]
pub enum Poll<F, T> {
    /// It has not resolved. Holds the future, to be polled again.
    NotReady(F),
    /// It has resolved to a value.
    Ready(T),
    /// It has resolved to a failure.
    Failed(Error),
}

/// A pending response: the request that was assembled for the transport, or
/// the failure that the assembly ended in.
#[derive(Debug)]
pub struct ResponseFuture(pub Result<Request, Error>);

impl View for ResponseFuture {
    type V = Result<RequestView, ErrorView>;

    open spec fn view(&self) -> Result<RequestView, ErrorView> {
        outcome_view(self.0)
    }
}

/// Where a pending response stands once the transport has reported `event`.
/// A failure of the assembly is the outcome whatever the event says: nothing
/// was sent. Otherwise a response resolves the future to that response, a
/// failure of the transport resolves it to a failure of kind transport, and
/// without news it stays as it is.
pub open spec fn polled<B>(future: ResponseFuture, event: Event<B>) -> Poll<
    ResponseFuture,
    Response<B>,
> {
    match future.0 {
        Err(error) => Poll::Failed(error),
        Ok(_) => match event {
            Event::Pending => Poll::NotReady(future),
            Event::Response(response) => Poll::Ready(response),
            Event::Failure(report) => Poll::Failed(Error::Transport(report)),
        },
    }
}

impl ResponseFuture {
    /// The request that the transport has to send; `None` where the assembly
    /// failed, and nothing is to be sent.
    pub fn request(&self) -> (request: Option<&Request>)
        ensures
            request == match self.0 {
                Ok(request) => Some(&request),
                Err(_) => None::<&Request>,
            },
    {
        match &self.0 {
            Ok(request) => Some(request),
            Err(_) => None,
        }
    }

    /// Takes the transport's report and says where the future stands.
    pub fn poll<B>(self, event: Event<B>) -> (step: Poll<ResponseFuture, Response<B>>)
        ensures
            step == polled(self, event),
    {
        match self.0 {
            Err(error) => Poll::Failed(error),
            Ok(request) => match event {
                Event::Pending => Poll::NotReady(ResponseFuture(Ok(request))),
                Event::Response(response) => Poll::Ready(response),
                Event::Failure(report) => Poll::Failed(Error::Transport(report)),
            },
        }
    }

    /// Attaches the decoding stage: the future that resolves to the value
    /// that the body of the response decodes to.
    pub fn json<T>(self) -> (stage: Json<ResponseFuture, T>)
        ensures
            stage.future == self,
    {
        Json { future: self, _t: PhantomData }
    }
}

} // verus!
