use kafka_test::codec::DecodeError;
use kafka_test::driver::ParallelPing;
use kafka_test::driver::RecvDecision;
use kafka_test::driver::ReceiveEvent;
use kafka_test::driver::ReplyOutcome;
use kafka_test::driver::RoundStep;
use kafka_test::driver::SequentialPing;
use kafka_test::driver::TransportError;
use kafka_test::driver::classify_reply;
use kafka_test::opts::ConfigError;
use kafka_test::pending::ParallelTable;
use kafka_test::pending::SequentialSlot;
use kafka_test::responder::EchoAction;
use kafka_test::responder::echo_step;

#[test]
fn sequential_slot_holds_at_most_one_entry() {
    let mut slot = SequentialSlot::new();
    assert!(slot.register(0, 100));
    // A second registration is refused while the first is unresolved.
    assert!(!slot.register(1, 200));
    // Resolving a foreign id neither matches nor frees the slot.
    assert_eq!(slot.resolve(1), None);
    assert!(!slot.register(1, 200));
    // Resolving the outstanding id frees the slot for the next round.
    assert_eq!(slot.resolve(0), Some(100));
    assert!(slot.register(1, 200));
}

#[test]
fn parallel_table_matches_out_of_order_and_reports_unknown_ids() {
    let mut table = ParallelTable::new();
    table.register(1, 10);
    table.register(2, 20);
    table.register(3, 30);
    assert_eq!(table.len(), 3);
    // Replies arrive as {3, 1, 2}: three distinct, correctly matched entries.
    assert_eq!(table.take(3), Some(30));
    assert_eq!(table.take(1), Some(10));
    assert_eq!(table.take(2), Some(20));
    assert_eq!(table.len(), 0);
    // An id never registered is unmatched, not a failure.
    assert_eq!(table.take(99), None);
    // A resolved id does not match twice.
    table.register(4, 40);
    assert_eq!(table.take(4), Some(40));
    assert_eq!(table.take(4), None);
}

#[test]
fn sequential_driver_rejects_undersized_payload() {
    assert!(matches!(
        SequentialPing::new(42, 15),
        Err(ConfigError::PayloadSizeTooSmall)
    ));
    assert!(SequentialPing::new(42, 16).is_ok());
}

#[test]
fn three_echoed_rounds_emit_three_samples() {
    // Originator id 42, payload size 32, sequences 0, 1, 2; each probe is
    // echoed back unmodified and yields one sample with a nonnegative
    // half-RTT.
    let mut driver = SequentialPing::new(42, 32).unwrap();
    let mut samples = Vec::new();
    for round in 0u64..3 {
        let send_micros = 1_000 * round;
        let probe = driver.begin_round(send_micros);
        let echoed = match echo_step(ReceiveEvent::Payload(probe)) {
            EchoAction::Reply(bytes) => bytes,
            other => panic!("expected an echo, got {:?}", other),
        };
        let step = driver.handle_event(&ReceiveEvent::Payload(echoed), send_micros + 500);
        match step {
            RoundStep::Sample(sample) => samples.push(sample),
            other => panic!("expected a sample, got {:?}", other),
        }
    }
    assert_eq!(samples.len(), 3);
    for (round, sample) in samples.iter().enumerate() {
        assert_eq!(sample.sequence_index, round as u32);
        assert_eq!(sample.half_rtt_micros, 250);
    }
}

#[test]
fn provisioning_retries_twice_then_succeeds_without_error() {
    // The transport reports an unprovisioned destination on the first two
    // receive attempts, then delivers the echo: the driver asks for the fixed
    // backoff-and-resubscribe twice and emits no spurious error.
    let mut driver = SequentialPing::new(42, 32).unwrap();
    let probe = driver.begin_round(100);
    let not_ready = ReceiveEvent::Error(TransportError::DestinationNotProvisioned);
    assert_eq!(driver.handle_event(&not_ready, 200), RoundStep::Resubscribe);
    assert_eq!(driver.handle_event(&not_ready, 300), RoundStep::Resubscribe);
    match driver.handle_event(&ReceiveEvent::Payload(probe), 400) {
        RoundStep::Sample(sample) => {
            assert_eq!(sample.sequence_index, 0);
            assert_eq!(sample.half_rtt_micros, 150);
        }
        other => panic!("expected a sample, got {:?}", other),
    }
}

#[test]
fn foreign_malformed_and_empty_replies_are_discarded() {
    let mut driver = SequentialPing::new(42, 32).unwrap();
    let probe = driver.begin_round(0);
    // A reply from a foreign originator id is discarded, not propagated.
    let mut foreign = SequentialPing::new(7, 32).unwrap();
    let foreign_probe = foreign.begin_round(0);
    assert_eq!(
        driver.handle_event(&ReceiveEvent::Payload(foreign_probe), 10),
        RoundStep::Waiting
    );
    // A short or truncated reply is discarded.
    assert_eq!(
        driver.handle_event(&ReceiveEvent::Payload(vec![0u8; 5]), 10),
        RoundStep::Waiting
    );
    // A message without payload is discarded.
    assert_eq!(
        driver.handle_event(&ReceiveEvent::EmptyMessage, 10),
        RoundStep::Waiting
    );
    // A receive timeout is nothing to do this tick, not a failure.
    assert_eq!(
        driver.handle_event(&ReceiveEvent::Nothing, 10),
        RoundStep::Waiting
    );
    // A hard transport failure is fatal.
    assert_eq!(
        driver.handle_event(&ReceiveEvent::Error(TransportError::Failure), 10),
        RoundStep::Fatal
    );
    // The round itself is still resolvable afterwards.
    match driver.handle_event(&ReceiveEvent::Payload(probe), 20) {
        RoundStep::Sample(sample) => assert_eq!(sample.sequence_index, 0),
        other => panic!("expected a sample, got {:?}", other),
    }
}

#[test]
fn classify_reply_emits_half_rtt_for_own_probe() {
    let probe = kafka_test::codec::encode(9, 3, Some(1_000), 32).unwrap();
    let decision = classify_reply(&ReceiveEvent::Payload(probe), 9, 32, 2_000);
    assert_eq!(
        decision,
        RecvDecision::Emit {
            sequence_index: 3,
            half_rtt_micros: 500
        }
    );
}

#[test]
fn parallel_driver_matches_out_of_order_replies() {
    // Probes 0, 1, 2 are issued on the cadence; replies arrive as {2, 0, 1}
    // and each yields its own correctly timed sample.
    let mut driver = ParallelPing::new(16).unwrap();
    let probes: Vec<Vec<u8>> = (0u64..3).map(|i| driver.next_probe(100 * i)).collect();
    match driver.on_reply(&probes[2], 1_000) {
        ReplyOutcome::Matched(sample) => {
            assert_eq!(sample.sequence, 2);
            assert_eq!(sample.half_rtt_micros, 400);
        }
        other => panic!("expected a match, got {:?}", other),
    }
    match driver.on_reply(&probes[0], 1_000) {
        ReplyOutcome::Matched(sample) => {
            assert_eq!(sample.sequence, 0);
            assert_eq!(sample.half_rtt_micros, 500);
        }
        other => panic!("expected a match, got {:?}", other),
    }
    match driver.on_reply(&probes[1], 1_000) {
        ReplyOutcome::Matched(sample) => {
            assert_eq!(sample.sequence, 1);
            assert_eq!(sample.half_rtt_micros, 450);
        }
        other => panic!("expected a match, got {:?}", other),
    }
    // A duplicate of an already resolved reply is unmatched, not fatal.
    assert_eq!(driver.on_reply(&probes[1], 1_100), ReplyOutcome::Unmatched(1));
}

#[test]
fn parallel_driver_reports_malformed_replies() {
    let mut driver = ParallelPing::new(16).unwrap();
    assert_eq!(
        driver.on_reply(&[0u8; 4], 10),
        ReplyOutcome::Malformed(DecodeError::PayloadTooShort)
    );
    let probe = driver.next_probe(1_000);
    // A reply apparently received before its probe was sent is a clock
    // anomaly, reported rather than yielding a negative latency.
    assert_eq!(
        driver.on_reply(&probe, 999),
        ReplyOutcome::Malformed(DecodeError::ClockWentBackward)
    );
}

#[test]
fn parallel_driver_rejects_undersized_payload() {
    assert!(matches!(
        ParallelPing::new(7),
        Err(ConfigError::PayloadSizeTooSmall)
    ));
    assert!(ParallelPing::new(8).is_ok());
}

#[test]
fn echo_responder_policies() {
    assert!(matches!(
        echo_step(ReceiveEvent::EmptyMessage),
        EchoAction::Ignore
    ));
    assert!(matches!(echo_step(ReceiveEvent::Nothing), EchoAction::Ignore));
    assert!(matches!(
        echo_step(ReceiveEvent::Error(TransportError::DestinationNotProvisioned)),
        EchoAction::Resubscribe
    ));
    assert!(matches!(
        echo_step(ReceiveEvent::Error(TransportError::Failure)),
        EchoAction::Fatal
    ));
}
