use geyser_filter::events::{
    KafkaReplicaAccountInfo, KafkaReplicaAccountInfoV2, KafkaReplicaAccountInfoVersions,
    KafkaReplicaBlockInfo, Reward, RewardType, SlotStatus, UpdateAccount, UpdateSlotStatus,
};
use geyser_filter::records::{range_check, DbAccountInfo, DbBlockInfo, DbRewardType, RangeViolation};

fn v2_update(lamports: u64, rent_epoch: u64, write_version: u64) -> UpdateAccount {
    UpdateAccount {
        account: KafkaReplicaAccountInfoVersions::V0_0_2(KafkaReplicaAccountInfoV2 {
            pubkey: vec![1, 2, 3],
            lamports,
            owner: vec![4, 5, 6],
            executable: false,
            rent_epoch,
            data: vec![7, 8],
            write_version,
            txn_signature: Some(vec![9]),
        }),
        slot: 42,
    }
}

#[test]
fn range_check_accepts_max() {
    assert_eq!(range_check(i64::MAX as u64, 0, 0), Ok(()));
    assert_eq!(range_check(0, i64::MAX as u64, i64::MAX as u64), Ok(()));
}

#[test]
fn range_check_rejects_lamports() {
    assert_eq!(
        range_check(i64::MAX as u64 + 1, 0, 0),
        Err(RangeViolation::LamportsTooLarge)
    );
}

#[test]
fn range_check_rejects_rent_epoch() {
    assert_eq!(
        range_check(0, u64::MAX, 0),
        Err(RangeViolation::RentEpochTooLarge)
    );
}

#[test]
fn range_check_rejects_write_version() {
    assert_eq!(
        range_check(0, 0, i64::MAX as u64 + 1),
        Err(RangeViolation::WriteVersionTooLarge)
    );
}

#[test]
fn range_check_reports_first_violation() {
    assert_eq!(
        range_check(u64::MAX, u64::MAX, u64::MAX),
        Err(RangeViolation::LamportsTooLarge)
    );
}

#[test]
fn v2_update_converts_exactly() {
    let rec = DbAccountInfo::try_from_update(v2_update(100, 2, 7)).unwrap();
    assert_eq!(rec.pubkey, vec![1, 2, 3]);
    assert_eq!(rec.owner, vec![4, 5, 6]);
    assert_eq!(rec.lamports, 100);
    assert_eq!(rec.rent_epoch, 2);
    assert_eq!(rec.write_version, 7);
    assert_eq!(rec.slot, 42);
    assert_eq!(rec.data, vec![7, 8]);
    assert!(!rec.executable);
    assert_eq!(rec.txn_signature, Some(vec![9]));
}

#[test]
fn v1_update_converts_without_signature() {
    let update = UpdateAccount {
        account: KafkaReplicaAccountInfoVersions::V0_0_1(KafkaReplicaAccountInfo {
            pubkey: vec![10],
            lamports: 5,
            owner: vec![11],
            executable: true,
            rent_epoch: 1,
            data: vec![],
            write_version: 3,
        }),
        slot: 9,
    };
    let rec = DbAccountInfo::try_from_update(update).unwrap();
    assert_eq!(rec.pubkey, vec![10]);
    assert_eq!(rec.txn_signature, None);
    assert!(rec.executable);
    assert_eq!(rec.slot, 9);
    assert_eq!(rec.write_version, 3);
}

#[test]
fn out_of_range_update_is_rejected() {
    let err = DbAccountInfo::try_from_update(v2_update(u64::MAX, 0, 0)).unwrap_err();
    assert_eq!(err, RangeViolation::LamportsTooLarge);
    let err = DbAccountInfo::try_from_update(v2_update(0, 0, u64::MAX)).unwrap_err();
    assert_eq!(err, RangeViolation::WriteVersionTooLarge);
}

#[test]
fn block_conversion_maps_rewards() {
    let block = KafkaReplicaBlockInfo {
        slot: 10,
        blockhash: "hash10".to_string(),
        rewards: vec![
            Reward {
                pubkey: "alice".to_string(),
                lamports: -3,
                post_balance: 50,
                reward_type: Some(RewardType::Staking),
                commission: Some(5),
            },
            Reward {
                pubkey: "bob".to_string(),
                lamports: 8,
                post_balance: 90,
                reward_type: None,
                commission: None,
            },
        ],
        block_time: Some(1000),
        block_height: Some(7),
    };
    let rec = DbBlockInfo::from_block_info(block);
    assert_eq!(rec.slot, 10);
    assert_eq!(rec.blockhash, "hash10");
    assert_eq!(rec.block_time, Some(1000));
    assert_eq!(rec.block_height, Some(7));
    assert_eq!(rec.rewards.len(), 2);
    assert_eq!(rec.rewards[0].pubkey, "alice");
    assert_eq!(rec.rewards[0].lamports, -3);
    assert_eq!(rec.rewards[0].post_balance, 50);
    assert_eq!(rec.rewards[0].reward_type, Some(DbRewardType::Staking));
    assert_eq!(rec.rewards[0].commission, Some(5));
    assert_eq!(rec.rewards[1].reward_type, None);
    assert_eq!(rec.rewards[1].commission, None);
}

#[test]
fn reward_type_mapping() {
    assert_eq!(
        DbRewardType::from_reward_type(RewardType::Fee),
        DbRewardType::Fee
    );
    assert_eq!(
        DbRewardType::from_reward_type(RewardType::Rent),
        DbRewardType::Rent
    );
    assert_eq!(
        DbRewardType::from_reward_type(RewardType::Staking),
        DbRewardType::Staking
    );
    assert_eq!(
        DbRewardType::from_reward_type(RewardType::Voting),
        DbRewardType::Voting
    );
}

#[test]
fn status_labels() {
    let event = UpdateSlotStatus { slot: 1, parent: None, status: SlotStatus::Processed };
    assert_eq!(event.status_label(), "Processed");
    let event = UpdateSlotStatus { slot: 1, parent: None, status: SlotStatus::Confirmed };
    assert_eq!(event.status_label(), "Confirmed");
    let event = UpdateSlotStatus { slot: 1, parent: None, status: SlotStatus::Rooted };
    assert_eq!(event.status_label(), "Rooted");
}
