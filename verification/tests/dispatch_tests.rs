use geyser_filter::dispatch::{on_receive, DecodedMessage, ReceiveOutcome};
use geyser_filter::events::{MessageType, SlotStatus, UpdateSlotStatus};
use geyser_filter::stats::{get_counter, GetCounters, Stats};

fn slot_message() -> DecodedMessage {
    DecodedMessage::Slot(UpdateSlotStatus { slot: 1, parent: None, status: SlotStatus::Processed })
}

#[test]
fn decoded_message_counts_and_forwards() {
    let mut stats = Stats::new();
    let forward = on_receive(
        &mut stats,
        ReceiveOutcome::Message { payload_len: 10, decoded: Some(slot_message()) },
    );
    assert!(matches!(forward, Some(DecodedMessage::Slot(_))));
    assert_eq!(stats.kafka_update_slot, 1);
    assert_eq!(stats.kafka_bytes_rx, 10);
    assert_eq!(stats.kafka_error_deserialize, 0);
    assert_eq!(get_counter(&stats, MessageType::UpdateSlot), 1);
    assert_eq!(get_counter(&stats, MessageType::UpdateAccount), 0);
}

#[test]
fn malformed_payload_is_counted_and_skipped() {
    let mut stats = Stats::new();
    let forward = on_receive(
        &mut stats,
        ReceiveOutcome::Message { payload_len: 7, decoded: None },
    );
    assert!(forward.is_none());
    assert_eq!(stats.kafka_error_deserialize, 1);
    assert_eq!(stats.kafka_bytes_rx, 7);
    assert_eq!(stats.kafka_update_slot, 0);

    // the next message on the topic is processed as usual
    let forward = on_receive(
        &mut stats,
        ReceiveOutcome::Message { payload_len: 3, decoded: Some(slot_message()) },
    );
    assert!(forward.is_some());
    assert_eq!(stats.kafka_update_slot, 1);
    assert_eq!(stats.kafka_error_deserialize, 1);
    assert_eq!(stats.kafka_bytes_rx, 10);
}

#[test]
fn transport_error_only_moves_its_counter() {
    let mut stats = Stats::new();
    let forward = on_receive(&mut stats, ReceiveOutcome::TransportError);
    assert!(forward.is_none());
    assert_eq!(stats.kafka_error_consumer, 1);
    assert_eq!(stats.kafka_error_deserialize, 0);
    assert_eq!(stats.kafka_bytes_rx, 0);
}

#[test]
fn unreadable_payload_is_a_decode_error() {
    // a payload that is not valid UTF-8 is malformed like one the
    // schema rejects: counted, dropped, and the loop goes on
    let mut stats = Stats::new();
    let forward = on_receive(&mut stats, ReceiveOutcome::UnreadablePayload);
    assert!(forward.is_none());
    assert_eq!(stats.kafka_error_deserialize, 1);
    assert_eq!(stats.kafka_error_consumer, 0);
    assert_eq!(stats.kafka_bytes_rx, 0);
    assert_eq!(stats.kafka_update_account, 0);

    let forward = on_receive(
        &mut stats,
        ReceiveOutcome::Message { payload_len: 3, decoded: Some(slot_message()) },
    );
    assert!(forward.is_some());
    assert_eq!(stats.kafka_update_slot, 1);
}

#[test]
fn missing_payload_changes_nothing() {
    let mut stats = Stats::new();
    let forward = on_receive(&mut stats, ReceiveOutcome::MissingPayload);
    assert!(forward.is_none());
    assert_eq!(stats, Stats::new());
}

#[test]
fn error_counter_snapshot() {
    let mut stats = Stats::new();
    on_receive(&mut stats, ReceiveOutcome::TransportError);
    on_receive(&mut stats, ReceiveOutcome::Message { payload_len: 1, decoded: None });
    on_receive(&mut stats, ReceiveOutcome::Message { payload_len: 1, decoded: None });
    assert_eq!(stats.get_counters(), (1, 2));
}
