//! A cooperative, futures-style bridge over a synchronous, callback-driven
//! pub/sub-and-RPC middleware.
//!
//! The middleware (the node runtime) invokes user callbacks on its own worker
//! threads and, for RPC, must receive a reply before a callback returns. A
//! cooperative scheduler, on the other hand, must never block its carrier
//! thread. This crate holds the verified core of the bridge between the two:
//! the single-slot rendezvous primitive, the bounded hand-off queue, the
//! broadcast fan-out with per-consumer cursors, and the per-bridge state
//! machines (publisher, subscriber, service, client, action). Every crossing
//! of the thread/task boundary is expressed as an explicit transition on one
//! of these states, with its contract; the threads, the waiting and the calls
//! into the node runtime stay outside, in the unverified shell around this
//! library.

pub mod action;
pub mod client;
pub mod frequency;
pub mod handoff;
pub mod oneshot_blocking;
pub mod publisher;
pub mod service;
pub mod subscriber;
