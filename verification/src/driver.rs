//! Round-trip driver: the per-event decisions of the two probe-correlation
//! strategies.
//!
//! Both modes run the same outer loop — send a probe, await its correlated
//! reply, emit one latency sample, sleep, advance the sequence — and differ in
//! how a reply is matched to its probe.  The sequential mode keeps exactly one
//! probe outstanding in a single slot; the parallel mode keeps many, matched
//! out of order through the parallel pending table.  The transport glue around
//! the library performs the sends, receives, sleeps and resubscriptions and
//! hands every receive outcome in as a plain [`ReceiveEvent`]; each decision
//! here says exactly what the next action is.

use vstd::prelude::*;
use crate::codec::encode;
use crate::codec::encode_count_payload;
use crate::codec::encoded_count_payload;
use crate::codec::encoded_payload;
use crate::codec::decode;
use crate::codec::decode_count;
use crate::codec::spec_decode;
use crate::codec::spec_decode_count;
use crate::codec::DecodeError;
use crate::codec::PLAIN_HEADER_SIZE;
use crate::codec::TIMESTAMPED_HEADER_SIZE;
use crate::opts::ConfigError;
use crate::pending::ParallelTable;
use crate::pending::PendingEntry;
use crate::pending::SequentialSlot;

verus! {

/// How long the driver backs off before re-establishing its subscription when
/// the destination is not provisioned yet.
pub const RESUBSCRIBE_BACKOFF_MICROS: u64 = 1_000_000;

/// The bounded wait of one receive attempt; expiry is routine, not a failure.
pub const RECV_TIMEOUT_MICROS: u64 = 1_000_000;

/// What the transport reported when a receive attempt failed.
#[derive(Clone, Copy, Debug, PartialEq, Eq, Structural)]
pub enum TransportError {
    /// The destination is not recognized yet; expected to resolve shortly,
    /// so the driver retries after a fixed backoff.
    DestinationNotProvisioned,
    /// A hard connection or protocol failure; propagated, never retried.
    Failure,
}

/// The outcome of one bounded receive attempt, as the transport glue hands it
/// to the library.
#[derive(Debug)]
pub enum ReceiveEvent {
    /// A message carrying a payload arrived.
    Payload(Vec<u8>),
    /// A message arrived but carried no payload.
    EmptyMessage,
    /// The bounded wait expired with no message: nothing to do this tick.
    Nothing,
    /// The transport failed the attempt.
    Error(TransportError),
}

/// What the driver decides to do with one receive outcome.
#[derive(Clone, Copy, Debug, PartialEq, Eq, Structural)]
pub enum RecvDecision {
    /// A reply of this process's own originator id was matched: emit one
    /// latency sample.
    Emit { sequence_index: u32, half_rtt_micros: u64 },
    /// A malformed, foreign-origin or payload-free reply: log it, discard it,
    /// and keep going; the state machine neither advances nor retards.
    Discard,
    /// The bounded wait expired: loop again without emitting anything.
    Idle,
    /// The destination is not provisioned yet: wait the fixed backoff and
    /// re-establish the subscription, without advancing the sequence.
    Resubscribe,
    /// A hard transport failure: propagate it to the process boundary.
    Fatal,
}

/// The classification rule for one receive outcome in a round-trip mode, as a
/// mathematical function of the event.
pub open spec fn spec_classify_reply(
    event: ReceiveEvent,
    own_id: u32,
    expected_size: int,
    now_micros: u64,
) -> RecvDecision {
    match event {
        ReceiveEvent::Payload(p) => match spec_decode(p@, expected_size, true, now_micros) {
            Ok(info) => if info.originator_id == own_id {
                RecvDecision::Emit {
                    sequence_index: info.sequence_index,
                    half_rtt_micros: (info.rtt_micros.unwrap() / 2) as u64,
                }
            } else {
                RecvDecision::Discard
            },
            Err(_) => RecvDecision::Discard,
        },
        ReceiveEvent::EmptyMessage => RecvDecision::Discard,
        ReceiveEvent::Nothing => RecvDecision::Idle,
        ReceiveEvent::Error(TransportError::DestinationNotProvisioned) => RecvDecision::Resubscribe,
        ReceiveEvent::Error(TransportError::Failure) => RecvDecision::Fatal,
    }
}

/// Classify one receive outcome: decode the reply against this process's
/// configured payload size, discard what is malformed or foreign, and map the
/// transport's conditions to their fixed policies.
pub fn classify_reply(
    event: &ReceiveEvent,
    own_id: u32,
    expected_size: usize,
    now_micros: u64,
) -> (r: RecvDecision)
    ensures
        r == spec_classify_reply(*event, own_id, expected_size as int, now_micros),
{
    match event {
        ReceiveEvent::Payload(p) => match decode(p.as_slice(), expected_size, true, now_micros) {
            Ok(info) => {
                if info.originator_id == own_id {
                    let rtt = match info.rtt_micros {
                        Some(t) => t,
                        None => {
                            proof {
                                assert(false);
                            }
                            0
                        },
                    };
                    RecvDecision::Emit {
                        sequence_index: info.sequence_index,
                        half_rtt_micros: rtt / 2,
                    }
                } else {
                    RecvDecision::Discard
                }
            },
            Err(_) => RecvDecision::Discard,
        },
        ReceiveEvent::EmptyMessage => RecvDecision::Discard,
        ReceiveEvent::Nothing => RecvDecision::Idle,
        ReceiveEvent::Error(TransportError::DestinationNotProvisioned) => RecvDecision::Resubscribe,
        ReceiveEvent::Error(TransportError::Failure) => RecvDecision::Fatal,
    }
}

/// One emitted latency sample: the probe it belongs to and the one-way
/// estimate, half the measured round-trip time.
#[derive(Clone, Copy, Debug, PartialEq, Eq, Structural)]
pub struct LatencySample {
    pub sequence_index: u32,
    pub half_rtt_micros: u64,
}

/// What one sequential-mode receive attempt led to.
#[derive(Clone, Copy, Debug, PartialEq, Eq, Structural)]
pub enum RoundStep {
    /// The outstanding probe's reply arrived: the round is complete, the
    /// sequence advances, and this sample is emitted.
    Sample(LatencySample),
    /// Nothing conclusive this tick: keep waiting for the outstanding probe.
    Waiting,
    /// Back off and re-establish the subscription, then keep waiting.
    Resubscribe,
    /// Hard transport failure: abort the run.
    Fatal,
}

/// The sequence index following `s`, wrapping per native 32-bit arithmetic.
pub open spec fn seq_after(s: u32) -> u32 {
    if s == u32::MAX {
        0
    } else {
        (s + 1) as u32
    }
}

/// The sequential round-trip driver: at most one probe outstanding, so round
/// trips are strictly non-overlapping and reply N resolves before probe N+1
/// is issued.
pub struct SequentialPing {
    own_id: u32,
    next_seq: u32,
    payload_size: usize,
    pending: SequentialSlot,
}

impl SequentialPing {
    /// This process's originator id, stable for its lifetime.
    pub closed spec fn own_id(self) -> u32 {
        self.own_id
    }

    /// The sequence index the next probe will be sent under.
    pub closed spec fn next_seq(self) -> u32 {
        self.next_seq
    }

    /// The configured total size of every probe this driver sends.
    pub closed spec fn payload_size(self) -> usize {
        self.payload_size
    }

    /// The outstanding probe, if a round is in flight.
    pub closed spec fn pending(self) -> Option<PendingEntry> {
        self.pending.pending()
    }

    /// The driver's invariant: its probes can hold the timestamped header.
    pub open spec fn wf(self) -> bool {
        self.payload_size() >= TIMESTAMPED_HEADER_SIZE
    }

    /// The fixed configuration is untouched by a step.
    pub open spec fn same_config(self, other: SequentialPing) -> bool {
        self.own_id() == other.own_id() && self.payload_size() == other.payload_size()
    }

    /// Set up a sequential driver.  A payload size that cannot hold the
    /// timestamped header is a configuration error, rejected at startup.
    pub fn new(own_id: u32, payload_size: usize) -> (r: Result<SequentialPing, ConfigError>)
        ensures
            match r {
                Ok(d) => {
                    &&& payload_size >= TIMESTAMPED_HEADER_SIZE
                    &&& d.wf()
                    &&& d.own_id() == own_id
                    &&& d.next_seq() == 0
                    &&& d.payload_size() == payload_size
                    &&& d.pending() is None
                },
                Err(e) => e == ConfigError::PayloadSizeTooSmall && payload_size
                    < TIMESTAMPED_HEADER_SIZE,
            },
    {
        if payload_size < TIMESTAMPED_HEADER_SIZE {
            return Err(ConfigError::PayloadSizeTooSmall);
        }
        Ok(
            SequentialPing {
                own_id,
                next_seq: 0,
                payload_size,
                pending: SequentialSlot::new(),
            },
        )
    }

    /// Open a round: build the probe for the current sequence index with the
    /// send time embedded, and register it as the one outstanding correlation.
    /// Only callable between rounds — the previous probe must be resolved.
    pub fn begin_round(&mut self, now_micros: u64) -> (r: Vec<u8>)
        requires
            old(self).wf(),
            old(self).pending() is None,
        ensures
            final(self).wf(),
            old(self).same_config(*final(self)),
            r@ == encoded_payload(
                old(self).own_id(),
                old(self).next_seq(),
                Some(now_micros),
                old(self).payload_size() as nat,
            ),
            final(self).pending() == Some(
                PendingEntry { id: old(self).next_seq() as u64, send_micros: now_micros },
            ),
            final(self).next_seq() == old(self).next_seq(),
    {
        let payload = match encode(self.own_id, self.next_seq, Some(now_micros), self.payload_size) {
            Ok(p) => p,
            Err(_) => {
                proof {
                    assert(false);
                }
                Vec::new()
            },
        };
        let _registered = self.pending.register(self.next_seq as u64, now_micros);
        payload
    }

    /// Take one receive outcome while a round is in flight.  A matched reply
    /// of this driver's own id and outstanding sequence completes the round:
    /// the slot empties, the sequence advances, and the sample is emitted.
    /// Everything else leaves the driver exactly as it was, with the decision
    /// of [`spec_classify_reply`] mapped to the next action.
    pub fn handle_event(&mut self, event: &ReceiveEvent, now_micros: u64) -> (r: RoundStep)
        requires
            old(self).wf(),
        ensures
            final(self).wf(),
            old(self).same_config(*final(self)),
            ({
                let decision = spec_classify_reply(
                    *event,
                    old(self).own_id(),
                    old(self).payload_size() as int,
                    now_micros,
                );
                match decision {
                    RecvDecision::Emit { sequence_index, half_rtt_micros } => match old(
                        self,
                    ).pending() {
                        Some(entry) => if entry.id == sequence_index as u64 {
                            &&& r == RoundStep::Sample(
                                LatencySample { sequence_index, half_rtt_micros },
                            )
                            &&& final(self).pending() is None
                            &&& final(self).next_seq() == seq_after(old(self).next_seq())
                        } else {
                            r == RoundStep::Waiting && unchanged_state(*old(self), *final(self))
                        },
                        None => r == RoundStep::Waiting && unchanged_state(
                            *old(self),
                            *final(self),
                        ),
                    },
                    RecvDecision::Discard => r == RoundStep::Waiting && unchanged_state(
                        *old(self),
                        *final(self),
                    ),
                    RecvDecision::Idle => r == RoundStep::Waiting && unchanged_state(
                        *old(self),
                        *final(self),
                    ),
                    RecvDecision::Resubscribe => r == RoundStep::Resubscribe && unchanged_state(
                        *old(self),
                        *final(self),
                    ),
                    RecvDecision::Fatal => r == RoundStep::Fatal && unchanged_state(
                        *old(self),
                        *final(self),
                    ),
                }
            }),
    {
        let decision = classify_reply(event, self.own_id, self.payload_size, now_micros);
        match decision {
            RecvDecision::Emit { sequence_index, half_rtt_micros } => {
                match self.pending.resolve(sequence_index as u64) {
                    Some(_) => {
                        self.next_seq = if self.next_seq == u32::MAX {
                            0
                        } else {
                            self.next_seq + 1
                        };
                        RoundStep::Sample(LatencySample { sequence_index, half_rtt_micros })
                    },
                    None => RoundStep::Waiting,
                }
            },
            RecvDecision::Discard => RoundStep::Waiting,
            RecvDecision::Idle => RoundStep::Waiting,
            RecvDecision::Resubscribe => RoundStep::Resubscribe,
            RecvDecision::Fatal => RoundStep::Fatal,
        }
    }
}

/// Both the pending slot and the sequence index are exactly as they were.
pub open spec fn unchanged_state(before: SequentialPing, after: SequentialPing) -> bool {
    after.pending() == before.pending() && after.next_seq() == before.next_seq()
}

/// End-to-end law for one sequential round: a probe encoded by this driver,
/// echoed back byte for byte and received at any instant no earlier than its
/// send time, classifies as exactly one emission of its own sequence index,
/// with half the elapsed round-trip time — in particular never negative.
pub proof fn lemma_echoed_probe_emits(
    event: ReceiveEvent,
    own_id: u32,
    sequence_index: u32,
    send_micros: u64,
    now_micros: u64,
    payload_size: int,
)
    requires
        payload_size >= TIMESTAMPED_HEADER_SIZE,
        send_micros <= now_micros,
        event matches ReceiveEvent::Payload(p) && p@ == encoded_payload(
            own_id,
            sequence_index,
            Some(send_micros),
            payload_size as nat,
        ),
    ensures
        spec_classify_reply(event, own_id, payload_size, now_micros) == (RecvDecision::Emit {
            sequence_index,
            half_rtt_micros: (((now_micros - send_micros) as u64) / 2) as u64,
        }),
{
    crate::codec::lemma_encode_decode_round_trip(
        own_id,
        sequence_index,
        send_micros,
        now_micros,
        payload_size,
    );
}

/// One emitted parallel-mode sample: the counter the probe was sent under and
/// the one-way estimate, half the measured round-trip time.
#[derive(Clone, Copy, Debug, PartialEq, Eq, Structural)]
pub struct ParallelSample {
    pub sequence: u64,
    pub half_rtt_micros: u64,
}

/// What one parallel-mode reply led to.
#[derive(Clone, Copy, Debug, PartialEq, Eq, Structural)]
pub enum ReplyOutcome {
    /// The reply matched an outstanding probe: emit this sample.
    Matched(ParallelSample),
    /// The reply carried an id this driver never registered (or already
    /// resolved): reported, not fatal.
    Unmatched(u64),
    /// The reply could not be decoded, or its send time lies in the apparent
    /// future: logged and discarded.
    Malformed(DecodeError),
}

/// The counter following `c`, wrapping per native 64-bit arithmetic.
pub open spec fn count_after(c: u64) -> u64 {
    if c == u64::MAX {
        0
    } else {
        (c + 1) as u64
    }
}

/// The parallel round-trip driver: probes are issued on a fixed cadence
/// regardless of outstanding replies, and replies are matched purely by id,
/// in any order, through the parallel pending table.
pub struct ParallelPing {
    next_count: u64,
    payload_size: usize,
    pending: ParallelTable,
}

impl ParallelPing {
    /// The counter the next probe will be sent under.
    pub closed spec fn next_count(self) -> u64 {
        self.next_count
    }

    /// The configured total size of every probe this driver sends.
    pub closed spec fn payload_size(self) -> usize {
        self.payload_size
    }

    /// The outstanding correlations, as a map from counter to send time.
    pub closed spec fn pending(self) -> Map<u64, u64> {
        self.pending.pending()
    }

    /// The driver's invariant: its probes can hold the counter header.
    pub open spec fn wf(self) -> bool {
        self.payload_size() >= PLAIN_HEADER_SIZE
    }

    /// Set up a parallel driver.  A payload size that cannot hold the counter
    /// header is a configuration error, rejected at startup.
    pub fn new(payload_size: usize) -> (r: Result<ParallelPing, ConfigError>)
        ensures
            match r {
                Ok(d) => {
                    &&& payload_size >= PLAIN_HEADER_SIZE
                    &&& d.wf()
                    &&& d.next_count() == 0
                    &&& d.payload_size() == payload_size
                    &&& d.pending() == Map::<u64, u64>::empty()
                },
                Err(e) => e == ConfigError::PayloadSizeTooSmall && payload_size
                    < PLAIN_HEADER_SIZE,
            },
    {
        if payload_size < PLAIN_HEADER_SIZE {
            return Err(ConfigError::PayloadSizeTooSmall);
        }
        Ok(ParallelPing { next_count: 0, payload_size, pending: ParallelTable::new() })
    }

    /// Issue the next probe: build the payload for the current counter,
    /// register the counter with its send time — replies may resolve it in
    /// any order later — and advance the counter.
    pub fn next_probe(&mut self, now_micros: u64) -> (r: Vec<u8>)
        requires
            old(self).wf(),
        ensures
            final(self).wf(),
            final(self).payload_size() == old(self).payload_size(),
            r@ == encoded_count_payload(old(self).next_count(), old(self).payload_size() as nat),
            final(self).pending() == old(self).pending().insert(
                old(self).next_count(),
                now_micros,
            ),
            final(self).next_count() == count_after(old(self).next_count()),
    {
        let payload = match encode_count_payload(self.next_count, self.payload_size) {
            Ok(p) => p,
            Err(_) => {
                proof {
                    assert(false);
                }
                Vec::new()
            },
        };
        self.pending.register(self.next_count, now_micros);
        self.next_count = if self.next_count == u64::MAX {
            0
        } else {
            self.next_count + 1
        };
        payload
    }

    /// Take one reply: read its counter, consume the matching outstanding
    /// entry, and emit the sample measured from the registered send time.  An
    /// unregistered counter is reported as unmatched; an unreadable reply, or
    /// one registered in the apparent future, is malformed and discarded.
    pub fn on_reply(&mut self, payload: &[u8], now_micros: u64) -> (r: ReplyOutcome)
        requires
            old(self).wf(),
        ensures
            final(self).wf(),
            final(self).payload_size() == old(self).payload_size(),
            final(self).next_count() == old(self).next_count(),
            match spec_decode_count(payload@) {
                Err(e) => r == ReplyOutcome::Malformed(e) && final(self).pending() == old(
                    self,
                ).pending(),
                Ok(count) => if old(self).pending().contains_key(count) {
                    let send_micros = old(self).pending()[count];
                    &&& final(self).pending() == old(self).pending().remove(count)
                    &&& if send_micros <= now_micros {
                        r == ReplyOutcome::Matched(
                            ParallelSample {
                                sequence: count,
                                half_rtt_micros: (((now_micros - send_micros) as u64) / 2) as u64,
                            },
                        )
                    } else {
                        r == ReplyOutcome::Malformed(DecodeError::ClockWentBackward)
                    }
                } else {
                    r == ReplyOutcome::Unmatched(count) && final(self).pending() == old(
                        self,
                    ).pending()
                },
            },
    {
        let count = match decode_count(payload) {
            Ok(c) => c,
            Err(e) => {
                return ReplyOutcome::Malformed(e);
            },
        };
        match self.pending.take(count) {
            Some(send_micros) => {
                if send_micros <= now_micros {
                    ReplyOutcome::Matched(
                        ParallelSample {
                            sequence: count,
                            half_rtt_micros: (now_micros - send_micros) / 2,
                        },
                    )
                } else {
                    ReplyOutcome::Malformed(DecodeError::ClockWentBackward)
                }
            },
            None => ReplyOutcome::Unmatched(count),
        }
    }
}

} // verus!
