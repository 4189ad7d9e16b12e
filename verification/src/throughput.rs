//! Throughput side: the consumer's per-message decision, the shared message
//! counter, and the periodic aggregator that turns a counter window into one
//! rate sample.

use vstd::prelude::*;
use crate::codec::spec_parse_payload;
use crate::codec::parse_payload;
use crate::codec::PayloadInfo;
use crate::driver::ReceiveEvent;
use crate::driver::TransportError;

verus! {

/// The aggregator's nominal sleep between two reports; the emitted rate uses
/// the actually elapsed time, so scheduling jitter does not bias it.
pub const REPORT_WINDOW_MICROS: u64 = 1_000_000;

/// What the throughput consumer does with one receive outcome.
#[derive(Clone, Copy, Debug, PartialEq, Eq, Structural)]
pub enum ConsumerAction {
    /// A well-formed message of the configured size: count it.
    Accept(PayloadInfo),
    /// A malformed or payload-free message, or no message: skip this tick.
    Discard,
    /// Back off and re-establish the subscription, then keep receiving.
    Resubscribe,
    /// Hard transport failure: abort the run.
    Fatal,
}

/// The consumer's decision rule, as a mathematical function of the event.
pub open spec fn spec_consumer_step(event: ReceiveEvent, expect_size: int) -> ConsumerAction {
    match event {
        ReceiveEvent::Payload(p) => match spec_parse_payload(p@, expect_size) {
            Ok(info) => ConsumerAction::Accept(info),
            Err(_) => ConsumerAction::Discard,
        },
        ReceiveEvent::EmptyMessage => ConsumerAction::Discard,
        ReceiveEvent::Nothing => ConsumerAction::Discard,
        ReceiveEvent::Error(TransportError::DestinationNotProvisioned) => ConsumerAction::Resubscribe,
        ReceiveEvent::Error(TransportError::Failure) => ConsumerAction::Fatal,
    }
}

/// Decide one consumer step: count exactly the messages that parse cleanly
/// against the configured payload size.
pub fn consumer_step(event: &ReceiveEvent, expect_size: usize) -> (r: ConsumerAction)
    ensures
        r == spec_consumer_step(*event, expect_size as int),
{
    match event {
        ReceiveEvent::Payload(p) => match parse_payload(p.as_slice(), expect_size) {
            Ok(info) => ConsumerAction::Accept(info),
            Err(_) => ConsumerAction::Discard,
        },
        ReceiveEvent::EmptyMessage => ConsumerAction::Discard,
        ReceiveEvent::Nothing => ConsumerAction::Discard,
        ReceiveEvent::Error(TransportError::DestinationNotProvisioned) => ConsumerAction::Resubscribe,
        ReceiveEvent::Error(TransportError::Failure) => ConsumerAction::Fatal,
    }
}

/// The process-wide message counter, incremented on every accepted message
/// and read-and-reset by the aggregator once per report window.  The glue
/// around the library serializes concurrent access; the counting rule itself
/// is here.
pub struct ThroughputCounter {
    count: usize,
}

impl ThroughputCounter {
    /// How many messages have been accepted since the last reset.
    pub closed spec fn count(self) -> usize {
        self.count
    }

    /// A fresh counter, at zero.
    pub fn new() -> (r: ThroughputCounter)
        ensures
            r.count() == 0,
    {
        ThroughputCounter { count: 0 }
    }

    /// Count one accepted message, wrapping per native arithmetic as the
    /// shared atomic counter it stands for does.
    pub fn record(&mut self)
        ensures
            final(self).count() == if old(self).count() == usize::MAX {
                0usize
            } else {
                (old(self).count() + 1) as usize
            },
    {
        self.count = self.count.wrapping_add(1);
    }

    /// Read and reset: hand the window's total to the aggregator and start
    /// the next window at zero.
    pub fn take(&mut self) -> (r: usize)
        ensures
            r == old(self).count(),
            final(self).count() == 0,
    {
        let count = self.count;
        self.count = 0;
        count
    }
}

/// One emitted throughput sample: the configured payload size and the rate in
/// thousandths of a message per second.
#[derive(Clone, Copy, Debug, PartialEq, Eq, Structural)]
pub struct RateSample {
    pub payload_size: usize,
    pub rate_milli_msgs_per_sec: u128,
}

/// Close one report window: `count` messages arrived over `elapsed_micros` of
/// actual wall time.  A window that counted nothing emits nothing; otherwise
/// the emitted rate is exactly `count / elapsed_seconds`, kept in thousandths
/// of a message per second.
pub fn report_window(count: usize, elapsed_micros: u64, payload_size: usize) -> (r: Option<
    RateSample,
>)
    requires
        elapsed_micros > 0,
    ensures
        count == 0 <==> r is None,
        count > 0 ==> r == Some(
            RateSample {
                payload_size,
                rate_milli_msgs_per_sec: (
                (count * 1_000_000_000) / elapsed_micros as int) as u128,
            },
        ),
{
    if count == 0 {
        return None;
    }
    let rate = (count as u128 * 1_000_000_000u128) / (elapsed_micros as u128);
    proof {
        assert(count as u128 * 1_000_000_000u128 <= u128::MAX) by (nonlinear_arith)
            requires
                count <= usize::MAX,
                usize::MAX <= u64::MAX,
        ;
    }
    Some(RateSample { payload_size, rate_milli_msgs_per_sec: rate })
}

} // verus!
