use geyser_filter::allow_list::AllowList;
use geyser_filter::config::{FilterConfig, GlobalLogLevel, LogLevel};
use geyser_filter::events::{
    KafkaReplicaAccountInfoV2, KafkaReplicaAccountInfoVersions, KafkaReplicaBlockInfo,
    KafkaReplicaBlockInfoVersions, NotifyBlockMetaData, SlotStatus, UpdateAccount,
    UpdateSlotStatus,
};
use geyser_filter::filter::{
    process_account_update, process_block, process_slot, should_persist_account,
};
use geyser_filter::queues::RetryQueues;
use geyser_filter::records::RangeViolation;

fn config_with(include_pubkeys: Vec<String>, include_owners: Vec<String>) -> FilterConfig {
    FilterConfig {
        filter_log_path: String::new(),
        bootstrap_servers: "localhost:9092".to_string(),
        kafka_consumer_group_id: "group".to_string(),
        postgres_connection_str: "host=localhost".to_string(),
        sasl_username: String::new(),
        sasl_password: String::new(),
        sasl_mechanism: String::new(),
        security_protocol: String::new(),
        update_account_topic: Some("accounts".to_string()),
        update_slot_topic: Some("slots".to_string()),
        notify_block_topic: Some("blocks".to_string()),
        session_timeout_ms: "45000".to_string(),
        fetch_message_max_bytes: "1048576".to_string(),
        filter_include_owners: AllowList::from_keys(include_owners),
        filter_include_pubkeys: AllowList::from_keys(include_pubkeys),
        kafka_log_level: LogLevel::Info,
        global_log_level: GlobalLogLevel::Info,
    }
}

fn account_update(pubkey: Vec<u8>, owner: Vec<u8>, lamports: u64) -> UpdateAccount {
    UpdateAccount {
        account: KafkaReplicaAccountInfoVersions::V0_0_2(KafkaReplicaAccountInfoV2 {
            pubkey,
            lamports,
            owner,
            executable: false,
            rent_epoch: 0,
            data: vec![1],
            write_version: 1,
            txn_signature: None,
        }),
        slot: 5,
    }
}

#[test]
fn allow_list_membership() {
    let mut list = AllowList::new();
    assert!(!list.contains(&"abc".to_string()));
    list.insert("abc".to_string());
    assert!(list.contains(&"abc".to_string()));
    assert!(!list.contains(&"abd".to_string()));
}

#[test]
fn pubkey_match_is_enqueued() {
    let pubkey = vec![1u8, 2, 3];
    let encoded = bs58::encode(&pubkey).into_string();
    let config = config_with(vec![encoded], vec![]);
    let mut queues = RetryQueues::new();
    let update = account_update(pubkey.clone(), vec![9, 9], 77);
    assert_eq!(process_account_update(&config, &mut queues, update), Ok(true));
    let rec = queues.pop_account().expect("record enqueued");
    assert_eq!(rec.pubkey, pubkey);
    assert_eq!(rec.lamports, 77);
    assert!(queues.pop_account().is_none());
}

#[test]
fn owner_match_is_enqueued() {
    let owner = vec![8u8, 7];
    let encoded = bs58::encode(&owner).into_string();
    let config = config_with(vec![], vec![encoded]);
    let mut queues = RetryQueues::new();
    let update = account_update(vec![1], owner, 5);
    assert_eq!(process_account_update(&config, &mut queues, update), Ok(true));
    assert!(queues.pop_account().is_some());
}

#[test]
fn unmatched_event_is_discarded() {
    let config = config_with(
        vec![bs58::encode(b"other").into_string()],
        vec![bs58::encode(b"nobody").into_string()],
    );
    let mut queues = RetryQueues::new();
    let update = account_update(vec![1, 2], vec![3, 4], 5);
    assert_eq!(process_account_update(&config, &mut queues, update), Ok(false));
    assert!(queues.pop_account().is_none());
}

#[test]
fn should_persist_uses_real_encoding() {
    // The allow-list holds the base-58 text, not the raw bytes: a
    // decision based on anything but the encoded key would miss it.
    let pubkey = vec![0u8, 255, 17];
    let encoded = bs58::encode(&pubkey).into_string();
    assert_ne!(encoded.as_bytes(), pubkey.as_slice());
    let config = config_with(vec![encoded], vec![]);
    let update = account_update(pubkey, vec![1], 1);
    assert!(should_persist_account(&config, &update));

    let raw_text = String::from_utf8(vec![65u8, 66]).unwrap();
    let config = config_with(vec![raw_text], vec![]);
    let update = account_update(vec![65, 66], vec![1], 1);
    assert!(!should_persist_account(&config, &update));
}

#[test]
fn out_of_range_event_never_reaches_queue() {
    let pubkey = vec![1u8];
    let encoded = bs58::encode(&pubkey).into_string();
    let config = config_with(vec![encoded], vec![]);
    let mut queues = RetryQueues::new();
    let update = account_update(pubkey, vec![2], u64::MAX);
    assert_eq!(
        process_account_update(&config, &mut queues, update),
        Err(RangeViolation::LamportsTooLarge)
    );
    assert!(queues.pop_account().is_none());
}

#[test]
fn block_events_bypass_the_allow_list() {
    let mut queues = RetryQueues::new();
    let event = NotifyBlockMetaData {
        block_info: KafkaReplicaBlockInfoVersions::V0_0_1(KafkaReplicaBlockInfo {
            slot: 12,
            blockhash: "h12".to_string(),
            rewards: vec![],
            block_time: Some(99),
            block_height: None,
        }),
    };
    process_block(&mut queues, event);
    let rec = queues.pop_block().expect("block enqueued");
    assert_eq!(rec.slot, 12);
    assert_eq!(rec.blockhash, "h12");
    assert_eq!(rec.block_time, Some(99));
}

#[test]
fn slot_events_bypass_the_allow_list() {
    let mut queues = RetryQueues::new();
    process_slot(
        &mut queues,
        UpdateSlotStatus { slot: 4, parent: Some(3), status: SlotStatus::Confirmed },
    );
    let event = queues.pop_slot().expect("slot event enqueued");
    assert_eq!(event.slot, 4);
    assert_eq!(event.parent, Some(3));
    assert_eq!(event.status, SlotStatus::Confirmed);
}

#[test]
fn excluded_out_of_range_event_is_just_discarded() {
    // The allow-list decides first: an event that matches nothing is
    // dropped without a range error.
    let config = config_with(vec![], vec![]);
    let mut queues = RetryQueues::new();
    let update = account_update(vec![1], vec![2], u64::MAX);
    assert_eq!(process_account_update(&config, &mut queues, update), Ok(false));
}
