use geyser_filter::events::{SlotStatus, UpdateSlotStatus};
use geyser_filter::executor::{
    connection_step, handle_account_write_result, poll_round, ConnectionEvent, ConnectionState,
};
use geyser_filter::queues::RetryQueues;
use geyser_filter::records::DbAccountInfo;

fn record(pubkey: &[u8], write_version: i64) -> DbAccountInfo {
    DbAccountInfo {
        pubkey: pubkey.to_vec(),
        lamports: 1,
        owner: vec![1],
        executable: false,
        rent_epoch: 0,
        data: vec![],
        slot: 1,
        write_version,
        txn_signature: None,
    }
}

#[test]
fn queues_are_fifo() {
    let mut queues = RetryQueues::new();
    queues.push_account(record(b"a", 1));
    queues.push_account(record(b"b", 2));
    assert_eq!(queues.pop_account().unwrap().pubkey, b"a".to_vec());
    assert_eq!(queues.pop_account().unwrap().pubkey, b"b".to_vec());
    assert!(queues.pop_account().is_none());
}

#[test]
fn poll_round_reports_idle_and_pops_heads() {
    let mut queues = RetryQueues::new();
    let plan = poll_round(&mut queues);
    assert!(plan.idle);
    assert!(plan.account.is_none() && plan.block.is_none() && plan.slot.is_none());

    queues.push_account(record(b"a", 1));
    queues.push_slot(UpdateSlotStatus { slot: 3, parent: None, status: SlotStatus::Processed });
    let plan = poll_round(&mut queues);
    assert!(!plan.idle);
    assert_eq!(plan.account.unwrap().pubkey, b"a".to_vec());
    assert!(plan.block.is_none());
    assert_eq!(plan.slot.unwrap().slot, 3);
    assert!(poll_round(&mut queues).idle);
}

#[test]
fn failed_write_requeues_the_same_record() {
    let mut queues = RetryQueues::new();
    queues.push_account(record(b"a", 1));
    queues.push_account(record(b"b", 2));

    let plan = poll_round(&mut queues);
    let taken = plan.account.unwrap();
    assert_eq!(taken.pubkey, b"a".to_vec());
    // simulate a write failure: the record goes back, at the tail
    handle_account_write_result(&mut queues, taken.clone(), false);

    let second = poll_round(&mut queues).account.unwrap();
    assert_eq!(second.pubkey, b"b".to_vec());
    let retried = poll_round(&mut queues).account.unwrap();
    assert_eq!(retried, taken);
    // no duplication, no loss
    assert!(poll_round(&mut queues).account.is_none());
}

#[test]
fn successful_write_consumes_the_record() {
    let mut queues = RetryQueues::new();
    queues.push_account(record(b"a", 1));
    let taken = poll_round(&mut queues).account.unwrap();
    handle_account_write_result(&mut queues, taken, true);
    assert!(poll_round(&mut queues).account.is_none());
}

#[test]
fn reconnection_state_machine() {
    let s = ConnectionState::Connected;
    let s = connection_step(s, ConnectionEvent::LivenessConfirmed);
    assert_eq!(s, ConnectionState::Connected);
    let s = connection_step(s, ConnectionEvent::LivenessLost);
    assert_eq!(s, ConnectionState::Disconnected);
    let s = connection_step(s, ConnectionEvent::RetryStarted);
    assert_eq!(s, ConnectionState::Reconnecting);
    let s = connection_step(s, ConnectionEvent::RetryFailed);
    assert_eq!(s, ConnectionState::Reconnecting);
    let s = connection_step(s, ConnectionEvent::RetryFailed);
    assert_eq!(s, ConnectionState::Reconnecting);
    let s = connection_step(s, ConnectionEvent::RetrySucceeded);
    assert_eq!(s, ConnectionState::Connected);
}
