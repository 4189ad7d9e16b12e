//! Payload codec: the fixed-layout binary envelope that every probe carries.
//!
//! The envelope holds the originator id at offset 0 and the sequence index at
//! offset 4, both little-endian `u32`s.  Round-trip probes additionally embed
//! the send timestamp (microseconds since the process-wide epoch) as a
//! little-endian `u64` at offset 8.  The remainder of the caller-chosen total
//! size is zero-filled padding.

use vstd::prelude::*;
use vstd::bytes::*;

verus! {

/// Bytes taken by the originator id and the sequence index together.
pub const PLAIN_HEADER_SIZE: usize = 8;

/// Bytes taken by the header when a send timestamp follows the two counters.
pub const TIMESTAMPED_HEADER_SIZE: usize = 16;

/// Minimum legal envelope size, depending on whether a timestamp is embedded.
pub open spec fn min_header_size(with_timestamp: bool) -> int {
    if with_timestamp {
        TIMESTAMPED_HEADER_SIZE as int
    } else {
        PLAIN_HEADER_SIZE as int
    }
}

/// `len` bytes of deterministic zero padding.
pub open spec fn zero_padding(len: nat) -> Seq<u8> {
    Seq::new(len, |i: int| 0u8)
}

/// The fixed-offset header fields of an envelope, before padding.
pub open spec fn envelope_header(
    originator_id: u32,
    sequence_index: u32,
    send_micros: Option<u64>,
) -> Seq<u8> {
    spec_u32_to_le_bytes(originator_id) + spec_u32_to_le_bytes(sequence_index) + (
    match send_micros {
        Some(t) => spec_u64_to_le_bytes(t),
        None => Seq::<u8>::empty(),
    })
}

/// A header followed by zero padding up to `total_size`.  Meaningful only
/// when `total_size` is at least the header's length.
pub open spec fn padded_to(header: Seq<u8>, total_size: nat) -> Seq<u8> {
    if total_size >= header.len() {
        header + zero_padding((total_size - header.len()) as nat)
    } else {
        header
    }
}

/// A whole envelope: the header fields, then zero padding up to `total_size`.
/// Meaningful only when `total_size` is at least the header size.
pub open spec fn encoded_payload(
    originator_id: u32,
    sequence_index: u32,
    send_micros: Option<u64>,
    total_size: nat,
) -> Seq<u8> {
    padded_to(envelope_header(originator_id, sequence_index, send_micros), total_size)
}

/// Why an envelope could not be produced.
#[derive(Clone, Copy, Debug, PartialEq, Eq, Structural)]
pub enum EncodeError {
    /// The caller-requested total size cannot hold the fixed header.
    TotalSizeTooSmall,
}

/// Why a received buffer was rejected instead of yielding an envelope.
#[derive(Clone, Copy, Debug, PartialEq, Eq, Structural)]
pub enum DecodeError {
    /// The buffer is shorter than the minimum header size.
    PayloadTooShort,
    /// The buffer length differs from the size this process was configured
    /// with, so it came from a misconfigured peer.
    SizeMismatch,
    /// The embedded send timestamp lies in the apparent future.
    ClockWentBackward,
}

/// The header size known by both sides, as an executable value.
fn header_size(with_timestamp: bool) -> (r: usize)
    ensures
        r == min_header_size(with_timestamp),
{
    if with_timestamp {
        TIMESTAMPED_HEADER_SIZE
    } else {
        PLAIN_HEADER_SIZE
    }
}

proof fn lemma_header_len(originator_id: u32, sequence_index: u32, send_micros: Option<u64>)
    ensures
        envelope_header(originator_id, sequence_index, send_micros).len() == min_header_size(
            send_micros is Some,
        ),
{
    lemma_auto_spec_u32_to_from_le_bytes();
    lemma_auto_spec_u64_to_from_le_bytes();
}

/// Growing a padded buffer by one zero byte keeps it a padded buffer.
proof fn lemma_padded_to_grow(header: Seq<u8>, n: nat)
    requires
        n >= header.len(),
    ensures
        padded_to(header, (n + 1) as nat) == padded_to(header, n).push(0u8),
{
    assert(padded_to(header, (n + 1) as nat) =~= padded_to(header, n).push(0u8));
}

/// Encode one probe envelope of exactly `total_size` bytes.
///
/// Fails deterministically, producing no buffer at all, when `total_size`
/// cannot hold the fixed header; a truncated envelope is never returned.
pub fn encode(
    originator_id: u32,
    sequence_index: u32,
    send_micros: Option<u64>,
    total_size: usize,
) -> (r: Result<Vec<u8>, EncodeError>)
    ensures
        match r {
            Ok(payload) => total_size >= min_header_size(send_micros is Some) && payload@
                == encoded_payload(
                originator_id,
                sequence_index,
                send_micros,
                total_size as nat,
            ),
            Err(e) => e == EncodeError::TotalSizeTooSmall && total_size < min_header_size(
                send_micros is Some,
            ),
        },
{
    let with_timestamp = send_micros.is_some();
    if total_size < header_size(with_timestamp) {
        return Err(EncodeError::TotalSizeTooSmall);
    }
    let mut payload = u32_to_le_bytes(originator_id);
    let mut sequence_bytes = u32_to_le_bytes(sequence_index);
    payload.append(&mut sequence_bytes);
    if let Some(t) = send_micros {
        let mut time_bytes = u64_to_le_bytes(t);
        payload.append(&mut time_bytes);
    }
    proof {
        lemma_header_len(originator_id, sequence_index, send_micros);
        assert(payload@ =~= envelope_header(originator_id, sequence_index, send_micros));
        assert(payload@ =~= encoded_payload(
            originator_id,
            sequence_index,
            send_micros,
            payload@.len(),
        ));
    }
    let ghost header = envelope_header(originator_id, sequence_index, send_micros);
    while payload.len() < total_size
        invariant
            payload@.len() <= total_size,
            payload@.len() >= header.len(),
            payload@ == padded_to(header, payload@.len()),
        decreases total_size - payload@.len(),
    {
        proof {
            lemma_padded_to_grow(header, payload@.len());
        }
        payload.push(0u8);
    }
    Ok(payload)
}

/// What a successfully decoded round-trip envelope carries.
#[derive(Clone, Copy, Debug, PartialEq, Eq, Structural)]
pub struct ProbeInfo {
    /// Identifier of the process that sent the probe.
    pub originator_id: u32,
    /// Per-originator counter identifying this probe among many.
    pub sequence_index: u32,
    /// Elapsed microseconds from the embedded send time to the caller's
    /// "now"; present exactly when a timestamp was expected and embedded.
    pub rtt_micros: Option<u64>,
}

/// The decoding rule, as a mathematical function of the received bytes.
///
/// A buffer below the minimum header size is rejected as too short; one whose
/// length differs from the configured size is rejected as a size mismatch even
/// if its header parses cleanly; an embedded timestamp in the apparent future
/// is rejected rather than yielding a negative latency.
pub open spec fn spec_decode(
    bytes: Seq<u8>,
    expected_size: int,
    expect_timestamp: bool,
    now_micros: u64,
) -> Result<ProbeInfo, DecodeError> {
    if bytes.len() < min_header_size(expect_timestamp) {
        Err(DecodeError::PayloadTooShort)
    } else if bytes.len() != expected_size {
        Err(DecodeError::SizeMismatch)
    } else {
        let originator_id = spec_u32_from_le_bytes(bytes.subrange(0, 4));
        let sequence_index = spec_u32_from_le_bytes(bytes.subrange(4, 8));
        if expect_timestamp {
            let send_micros = spec_u64_from_le_bytes(bytes.subrange(8, 16));
            if send_micros > now_micros {
                Err(DecodeError::ClockWentBackward)
            } else {
                Ok(
                    ProbeInfo {
                        originator_id,
                        sequence_index,
                        rtt_micros: Some((now_micros - send_micros) as u64),
                    },
                )
            }
        } else {
            Ok(ProbeInfo { originator_id, sequence_index, rtt_micros: None })
        }
    }
}

/// Decode one received buffer against the size this process was configured
/// with, computing the elapsed time against `now_micros` when a timestamp is
/// expected.  Never reads out of bounds and never panics.
pub fn decode(
    payload: &[u8],
    expected_size: usize,
    expect_timestamp: bool,
    now_micros: u64,
) -> (r: Result<ProbeInfo, DecodeError>)
    ensures
        r == spec_decode(payload@, expected_size as int, expect_timestamp, now_micros),
{
    let len = payload.len();
    if len < header_size(expect_timestamp) {
        return Err(DecodeError::PayloadTooShort);
    }
    if len != expected_size {
        return Err(DecodeError::SizeMismatch);
    }
    let originator_id = u32_from_le_bytes(vstd::slice::slice_subrange(payload, 0, 4));
    let sequence_index = u32_from_le_bytes(vstd::slice::slice_subrange(payload, 4, 8));
    if expect_timestamp {
        let send_micros = u64_from_le_bytes(vstd::slice::slice_subrange(payload, 8, 16));
        if send_micros > now_micros {
            Err(DecodeError::ClockWentBackward)
        } else {
            Ok(
                ProbeInfo {
                    originator_id,
                    sequence_index,
                    rtt_micros: Some(now_micros - send_micros),
                },
            )
        }
    } else {
        Ok(ProbeInfo { originator_id, sequence_index, rtt_micros: None })
    }
}

/// What a successfully parsed throughput envelope carries.
#[derive(Clone, Copy, Debug, PartialEq, Eq, Structural)]
pub struct PayloadInfo {
    /// Identifier of the producer process that sent the message.
    pub producer_id: u32,
    /// Per-producer counter identifying this message among many.
    pub msg_index: u32,
    /// The received buffer's length, already checked against the configured
    /// size.
    pub payload_size: usize,
}

/// The parsing rule for the timestamp-free throughput envelope.
pub open spec fn spec_parse_payload(bytes: Seq<u8>, expect_size: int) -> Result<
    PayloadInfo,
    DecodeError,
> {
    if bytes.len() < PLAIN_HEADER_SIZE {
        Err(DecodeError::PayloadTooShort)
    } else if bytes.len() != expect_size {
        Err(DecodeError::SizeMismatch)
    } else {
        Ok(
            PayloadInfo {
                producer_id: spec_u32_from_le_bytes(bytes.subrange(0, 4)),
                msg_index: spec_u32_from_le_bytes(bytes.subrange(4, 8)),
                payload_size: bytes.len() as usize,
            },
        )
    }
}

/// Parse a throughput message: producer id and message index, no timestamp.
/// Rejects a buffer below the 8-byte header and one whose length differs from
/// the configured size.
pub fn parse_payload(payload: &[u8], expect_size: usize) -> (r: Result<PayloadInfo, DecodeError>)
    ensures
        r == spec_parse_payload(payload@, expect_size as int),
{
    let payload_size = payload.len();
    if payload_size < PLAIN_HEADER_SIZE {
        return Err(DecodeError::PayloadTooShort);
    }
    if payload_size != expect_size {
        return Err(DecodeError::SizeMismatch);
    }
    let producer_id = u32_from_le_bytes(vstd::slice::slice_subrange(payload, 0, 4));
    let msg_index = u32_from_le_bytes(vstd::slice::slice_subrange(payload, 4, 8));
    Ok(PayloadInfo { producer_id, msg_index, payload_size })
}

/// Build a throughput message: producer id and message index at their fixed
/// offsets, zero-filled to `payload_size`.
pub fn generate_payload(producer_id: u32, msg_index: u32, payload_size: usize) -> (r: Vec<u8>)
    requires
        payload_size >= PLAIN_HEADER_SIZE,
    ensures
        r@ == encoded_payload(producer_id, msg_index, None, payload_size as nat),
{
    match encode(producer_id, msg_index, None, payload_size) {
        Ok(payload) => payload,
        Err(_) => {
            proof {
                assert(false);
            }
            Vec::new()
        },
    }
}

/// The envelope of a transport-link probe: one little-endian `u64` counter at
/// offset 0, zero padding up to `total_size`.
pub open spec fn encoded_count_payload(count: u64, total_size: nat) -> Seq<u8> {
    padded_to(spec_u64_to_le_bytes(count), total_size)
}

/// Build a transport-link probe keyed by a bare `u64` counter.  Fails
/// deterministically when `total_size` cannot hold the counter.
pub fn encode_count_payload(count: u64, total_size: usize) -> (r: Result<Vec<u8>, EncodeError>)
    ensures
        match r {
            Ok(payload) => total_size >= PLAIN_HEADER_SIZE && payload@ == encoded_count_payload(
                count,
                total_size as nat,
            ),
            Err(e) => e == EncodeError::TotalSizeTooSmall && total_size < PLAIN_HEADER_SIZE,
        },
{
    if total_size < PLAIN_HEADER_SIZE {
        return Err(EncodeError::TotalSizeTooSmall);
    }
    let mut payload = u64_to_le_bytes(count);
    let ghost header = spec_u64_to_le_bytes(count);
    proof {
        assert(payload@ =~= padded_to(header, payload@.len()));
    }
    while payload.len() < total_size
        invariant
            payload@.len() <= total_size,
            payload@.len() >= header.len(),
            payload@ == padded_to(header, payload@.len()),
        decreases total_size - payload@.len(),
    {
        proof {
            lemma_padded_to_grow(header, payload@.len());
        }
        payload.push(0u8);
    }
    Ok(payload)
}

/// The counter a transport-link probe or reply carries, read back from its
/// first eight bytes.
pub open spec fn spec_decode_count(bytes: Seq<u8>) -> Result<u64, DecodeError> {
    if bytes.len() < PLAIN_HEADER_SIZE {
        Err(DecodeError::PayloadTooShort)
    } else {
        Ok(spec_u64_from_le_bytes(bytes.subrange(0, 8)))
    }
}

/// Read the counter of a transport-link probe.  Rejects a buffer too short to
/// hold it; never reads out of bounds.
pub fn decode_count(payload: &[u8]) -> (r: Result<u64, DecodeError>)
    ensures
        r == spec_decode_count(payload@),
{
    if payload.len() < PLAIN_HEADER_SIZE {
        return Err(DecodeError::PayloadTooShort);
    }
    Ok(u64_from_le_bytes(vstd::slice::slice_subrange(payload, 0, 8)))
}

/// The deterministic filler pattern some publishers send instead of an
/// envelope: byte `i` holds `i % 10`.
pub open spec fn spec_pattern_payload(size: nat) -> Seq<u8> {
    Seq::new(size, |i: int| (i % 10) as u8)
}

/// Build a pattern-filled payload of exactly `size` bytes.
pub fn pattern_payload(size: usize) -> (r: Vec<u8>)
    ensures
        r@ == spec_pattern_payload(size as nat),
{
    let mut payload: Vec<u8> = Vec::new();
    let mut i: usize = 0;
    while i < size
        invariant
            i <= size,
            payload@.len() == i,
            payload@ == spec_pattern_payload(i as nat),
        decreases size - i,
    {
        payload.push((i % 10) as u8);
        proof {
            assert(payload@ =~= spec_pattern_payload((i + 1) as nat));
        }
        i = i + 1;
    }
    payload
}

/// Round-trip law: an envelope of at least the timestamped header size,
/// decoded against its own total size at any instant no earlier than its send
/// time, yields back exactly the originator id and sequence index it was
/// encoded from, with the elapsed time between the two instants.
pub proof fn lemma_encode_decode_round_trip(
    originator_id: u32,
    sequence_index: u32,
    send_micros: u64,
    now_micros: u64,
    total_size: int,
)
    requires
        total_size >= TIMESTAMPED_HEADER_SIZE,
        send_micros <= now_micros,
    ensures
        spec_decode(
            encoded_payload(originator_id, sequence_index, Some(send_micros), total_size as nat),
            total_size,
            true,
            now_micros,
        ) == Ok::<ProbeInfo, DecodeError>(
            ProbeInfo {
                originator_id,
                sequence_index,
                rtt_micros: Some((now_micros - send_micros) as u64),
            },
        ),
{
    lemma_auto_spec_u32_to_from_le_bytes();
    lemma_auto_spec_u64_to_from_le_bytes();
    let bytes = encoded_payload(
        originator_id,
        sequence_index,
        Some(send_micros),
        total_size as nat,
    );
    assert(bytes.subrange(0, 4) =~= spec_u32_to_le_bytes(originator_id));
    assert(bytes.subrange(4, 8) =~= spec_u32_to_le_bytes(sequence_index));
    assert(bytes.subrange(8, 16) =~= spec_u64_to_le_bytes(send_micros));
}

/// The same law for the counter-keyed transport-link probe: the counter read
/// back from an adequately sized probe is the one it was built from.
pub proof fn lemma_count_round_trip(count: u64, total_size: int)
    requires
        total_size >= PLAIN_HEADER_SIZE,
    ensures
        spec_decode_count(encoded_count_payload(count, total_size as nat)) == Ok::<
            u64,
            DecodeError,
        >(count),
{
    lemma_auto_spec_u64_to_from_le_bytes();
    let bytes = encoded_count_payload(count, total_size as nat);
    assert(bytes.subrange(0, 8) =~= spec_u64_to_le_bytes(count));
}

} // verus!
