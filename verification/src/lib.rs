//! # HTTPer
//!
//! The request-construction and response-processing core of an asynchronous
//! HTTP(S) client: header sets with override-on-merge semantics, single-use
//! request builders, the assembly of the outgoing request, and the chain that
//! leads from a pending response to a decoded value.
//!
//! Every function here works on plain values and is verified with Verus. The
//! transport that moves bytes over the network lives outside this crate: it
//! takes the [`client::request::Request`] that a builder's `send` assembled
//! and reports back what came of it.

pub mod client;
