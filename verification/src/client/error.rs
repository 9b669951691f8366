//! The failures of an exchange.
//!
//! There are four kinds, and a failure is of exactly one: the target was no
//! URL, the request could not be formed, the transport failed, or the body of
//! a response that did arrive could not be decoded. None is retried, and none
//! is turned into another.

use crate::client::entries::pair_views;
use vstd::prelude::*;

verus! {

/// A failure of an exchange.
#[derive(Debug)]
pub enum Error {
    /// The target could not be read as a URL. Holds the target as it was
    /// given, and what was found wrong with it.
    Url { target: String, reason: String },
    /// A header could not be attached to the request. Holds the header's
    /// name, and what was found wrong with the header.
    Request { header: String, reason: String },
    /// The transport failed before a response was there. Holds its report.
    Transport(String),
    /// A response arrived, and its body could not be decoded. Holds the status
    /// and the headers of that response, and the decoder's report.
    Decode { status: u16, headers: Vec<(String, String)>, reason: String },
}

/// A failure as the contracts see it.
pub enum ErrorView {
    Url { target: Seq<char>, reason: Seq<char> },
    Request { header: Seq<char>, reason: Seq<char> },
    Transport(Seq<char>),
    Decode { status: u16, headers: Seq<(Seq<char>, Seq<char>)>, reason: Seq<char> },
}

impl View for Error {
    type V = ErrorView;

    open spec fn view(&self) -> ErrorView {
        match *self {
            Error::Url { target, reason } => ErrorView::Url { target: target@, reason: reason@ },
            Error::Request { header, reason } => ErrorView::Request {
                header: header@,
                reason: reason@,
            },
            Error::Transport(report) => ErrorView::Transport(report@),
            Error::Decode { status, headers, reason } => ErrorView::Decode {
                status,
                headers: pair_views(headers@),
                reason: reason@,
            },
        }
    }
}

impl Error {
    /// Whether the failure came after a response had arrived: a response was
    /// there, and only its body could not be decoded.
    pub fn response_arrived(&self) -> (arrived: bool)
        ensures
            arrived == (self@ is Decode),
    {
        match self {
            Error::Decode { .. } => true,
            _ => false,
        }
    }

    /// The status of the response whose body could not be decoded; `None` for
    /// a failure of another kind.
    pub fn response_status(&self) -> (status: Option<u16>)
        ensures
            status == match self@ {
                ErrorView::Decode { status, .. } => Some(status),
                _ => None::<u16>,
            },
    {
        match self {
            Error::Decode { status, .. } => Some(*status),
            _ => None,
        }
    }
}

} // verus!
