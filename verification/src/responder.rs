//! Echo responder: the passive side of a round-trip probe.
//!
//! Stateless per message — a received payload is republished unmodified back
//! to the peer, a message without a payload is dropped with a warning, and
//! the transport's conditions get the same fixed policies as the driver:
//! retry past a destination that is not provisioned yet, propagate a hard
//! failure.

use vstd::prelude::*;
use crate::driver::ReceiveEvent;
use crate::driver::TransportError;

verus! {

/// What the responder does with one receive outcome.
#[derive(Debug)]
pub enum EchoAction {
    /// Republish exactly these bytes to the reply destination.
    Reply(Vec<u8>),
    /// Nothing to echo this tick: a payload-free message, or no message.
    Ignore,
    /// Back off and re-establish the subscription, then keep receiving.
    Resubscribe,
    /// Hard transport failure: abort the run.
    Fatal,
}

/// Decide one responder step.  The echoed payload is the received payload,
/// unchanged byte for byte.
pub fn echo_step(event: ReceiveEvent) -> (r: EchoAction)
    ensures
        match event {
            ReceiveEvent::Payload(p) => r matches EchoAction::Reply(q) && q@ == p@,
            ReceiveEvent::EmptyMessage => r is Ignore,
            ReceiveEvent::Nothing => r is Ignore,
            ReceiveEvent::Error(TransportError::DestinationNotProvisioned) => r is Resubscribe,
            ReceiveEvent::Error(TransportError::Failure) => r is Fatal,
        },
{
    match event {
        ReceiveEvent::Payload(p) => EchoAction::Reply(p),
        ReceiveEvent::EmptyMessage => EchoAction::Ignore,
        ReceiveEvent::Nothing => EchoAction::Ignore,
        ReceiveEvent::Error(TransportError::DestinationNotProvisioned) => EchoAction::Resubscribe,
        ReceiveEvent::Error(TransportError::Failure) => EchoAction::Fatal,
    }
}

} // verus!
