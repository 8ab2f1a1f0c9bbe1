//! The part of a store server that carries Raft messages to other stores.
//!
//! Handlers here decide; they do not perform. Each one takes the current state and what
//! just happened, and returns the effects that its caller is to carry out, in order. What
//! a channel, a connection, an address resolver or a snapshot worker answers is handed
//! back through another handler.

#![allow(unused_imports)]

pub mod laws;
pub mod message;
pub mod metrics;
pub mod outcomes;
pub mod router;
pub mod snapshot;
pub mod transport;
