use kafka_test::codec::generate_payload;
use kafka_test::driver::ReceiveEvent;
use kafka_test::driver::TransportError;
use kafka_test::throughput::ConsumerAction;
use kafka_test::throughput::ThroughputCounter;
use kafka_test::throughput::consumer_step;
use kafka_test::throughput::report_window;

#[test]
fn consumer_counts_well_formed_messages_only() {
    let payload = generate_payload(5, 17, 32);
    match consumer_step(&ReceiveEvent::Payload(payload), 32) {
        ConsumerAction::Accept(info) => {
            assert_eq!(info.producer_id, 5);
            assert_eq!(info.msg_index, 17);
            assert_eq!(info.payload_size, 32);
        }
        other => panic!("expected an accept, got {:?}", other),
    }
    // A message of the wrong size, a short one, and a payload-free one are
    // all skipped without counting.
    let wrong_size = generate_payload(5, 18, 16);
    assert_eq!(
        consumer_step(&ReceiveEvent::Payload(wrong_size), 32),
        ConsumerAction::Discard
    );
    assert_eq!(
        consumer_step(&ReceiveEvent::Payload(vec![1, 2, 3]), 32),
        ConsumerAction::Discard
    );
    assert_eq!(
        consumer_step(&ReceiveEvent::EmptyMessage, 32),
        ConsumerAction::Discard
    );
    assert_eq!(
        consumer_step(
            &ReceiveEvent::Error(TransportError::DestinationNotProvisioned),
            32
        ),
        ConsumerAction::Resubscribe
    );
    assert_eq!(
        consumer_step(&ReceiveEvent::Error(TransportError::Failure), 32),
        ConsumerAction::Fatal
    );
}

#[test]
fn counter_accumulates_and_resets_on_take() {
    let mut counter = ThroughputCounter::new();
    for _ in 0..5 {
        counter.record();
    }
    assert_eq!(counter.take(), 5);
    assert_eq!(counter.take(), 0);
    counter.record();
    assert_eq!(counter.take(), 1);
}

#[test]
fn window_rate_is_count_over_elapsed_time() {
    // 5 messages over exactly one second: 5.000 messages per second.
    let sample = report_window(5, 1_000_000, 32).unwrap();
    assert_eq!(sample.payload_size, 32);
    assert_eq!(sample.rate_milli_msgs_per_sec, 5_000);
    // The actually elapsed time is used, so a stretched window lowers the
    // rate: 3 messages over 1.5 s is 2.000 messages per second.
    let sample = report_window(3, 1_500_000, 32).unwrap();
    assert_eq!(sample.rate_milli_msgs_per_sec, 2_000);
    // Rates below one message per second keep their thousandths.
    let sample = report_window(1, 3_000_000, 8).unwrap();
    assert_eq!(sample.rate_milli_msgs_per_sec, 333);
}

#[test]
fn empty_window_emits_nothing() {
    assert!(report_window(0, 1_000_000, 32).is_none());
    assert!(report_window(0, 1, 32).is_none());
}
