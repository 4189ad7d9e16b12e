//! Correlated round-trip measurement engine for message-oriented transports.
//!
//! The library holds the parts of a ping/pong latency benchmark and a
//! publisher/subscriber throughput benchmark that carry real invariants: the
//! payload envelope codec, the pending-request tables that match a sent probe
//! to its reply, the per-event decisions of the round-trip driver and the echo
//! responder, and the periodic throughput aggregator.  The surrounding broker
//! clients, argument parsing and process bootstrap live outside the library
//! and hand it plain values.

pub mod codec;
pub mod driver;
pub mod opts;
pub mod pending;
pub mod responder;
pub mod throughput;
