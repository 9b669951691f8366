//! The decoding stage of a pending response.
//!
//! The stage waits until the response is there and its body was read to the
//! end, hands the bytes to the decoder, and resolves to the decoded value. The decoder is the
//! caller's: a function from the bytes of a body to a value, or to its report
//! of why there is none. A body that does not decode is a failure of its own
//! kind, which still tells the status and the headers of the response.

use crate::client::error::Error;
use crate::client::response_future::polled;
use crate::client::response_future::Event;
use crate::client::response_future::Poll;
use crate::client::response_future::Response;
use crate::client::response_future::ResponseFuture;
use std::marker::PhantomData;
use vstd::prelude::*;

verus! {

/// A future `future` with the decoding stage attached: it resolves to a `T`.
#[derive(Debug)]
pub struct Json<F, T> {
    pub future: F,
    pub _t: PhantomData<T>,
}

impl<F: Clone, T> Clone for Json<F, T> {
    /// The stage attached to a copy of the future.
    fn clone(&self) -> (copy: Json<F, T>)
        ensures
            cloned(self.future, copy.future),
    {
        Json { future: self.future.clone(), _t: PhantomData }
    }
}

/// What the decoding stage resolves to for a response whose body the decoder
/// has turned into `outcome`: the decoded value, or the failure of kind
/// decode with the status and the headers of the response and the decoder's
/// report.
pub open spec fn decoded<T>(response: Response<Vec<u8>>, outcome: Result<T, String>) -> Result<
    T,
    Error,
> {
    match outcome {
        Ok(value) => Ok(value),
        Err(reason) => Err(
            Error::Decode { status: response.status, headers: response.headers, reason },
        ),
    }
}

/// A finished stage as the step of a poll.
pub open spec fn settled<T>(outcome: Result<T, Error>) -> Poll<Json<ResponseFuture, T>, T> {
    match outcome {
        Ok(value) => Poll::Ready(value),
        Err(error) => Poll::Failed(error),
    }
}

impl<T> Json<ResponseFuture, T> {
    /// Ends the stage for a response that has arrived, given what the decoder
    /// made of its body.
    pub fn decoded(response: Response<Vec<u8>>, outcome: Result<T, String>) -> (end: Result<
        T,
        Error,
    >)
        ensures
            end == decoded(response, outcome),
    {
        match outcome {
            Ok(value) => Ok(value),
            Err(reason) => Err(
                Error::Decode { status: response.status, headers: response.headers, reason },
            ),
        }
    }

    /// Takes the transport's report and says where the stage stands.
    ///
    /// Until the response is there the stage follows the future it is attached
    /// to: a failure resolves it to that failure, and the decoder is not
    /// called. When the response has arrived, the decoder is called once, on
    /// the whole body.
    pub fn poll<D>(self, event: Event<Vec<u8>>, decode: D) -> (step: Poll<
        Json<ResponseFuture, T>,
        T,
    >) where
        D: FnOnce(&Vec<u8>) -> Result<T, String>,

        requires
            polled(self.future, event) matches Poll::Ready(response) ==> call_requires(
                decode,
                (&response.body,),
            ),
        ensures
            match polled(self.future, event) {
                Poll::NotReady(future) => step == Poll::<Json<ResponseFuture, T>, T>::NotReady(
                    Json { future, _t: PhantomData },
                ),
                Poll::Failed(error) => step == Poll::<Json<ResponseFuture, T>, T>::Failed(error),
                Poll::Ready(response) => exists|outcome: Result<T, String>|
                    call_ensures(decode, (&response.body,), outcome) && step == settled(
                        decoded(response, outcome),
                    ),
            },
    {
        match self.future.poll(event) {
            Poll::NotReady(future) => Poll::NotReady(Json { future, _t: PhantomData }),
            Poll::Failed(error) => Poll::Failed(error),
            Poll::Ready(response) => {
                let outcome = decode(&response.body);
                match Self::decoded(response, outcome) {
                    Ok(value) => Poll::Ready(value),
                    Err(error) => Poll::Failed(error),
                }
            },
        }
    }
}

} // verus!
