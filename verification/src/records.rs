//! Canonical, store-ready records and the range-checked conversions
//! that build them from wire events.
//!
//! The store keeps all large integers as signed 64-bit columns; a wire
//! value above `i64::MAX` cannot be represented and the event carrying
//! it is rejected with a [`RangeViolation`], never persisted.

use vstd::prelude::*;

use crate::events::{
    AccountVersionsModel, BlockInfoModel, KafkaReplicaAccountInfoVersions, KafkaReplicaBlockInfo,
    Reward, RewardModel, RewardType, UpdateAccount, UpdateAccountModel,
};

verus! {

/// Why a wire value could not be narrowed to the store's signed 64-bit
/// range.
#[derive(Clone, Copy, Debug, PartialEq, Eq, Structural)]
pub enum RangeViolation {
    LamportsTooLarge,
    RentEpochTooLarge,
    WriteVersionTooLarge,
}

/// Whether an unsigned wire value fits the store's signed 64-bit columns.
pub open spec fn fits_i64(v: u64) -> bool {
    v <= i64::MAX as u64
}

/// The exact outcome of the range check: the first field out of range
/// decides the error.
pub open spec fn spec_range_check(lamports: u64, rent_epoch: u64, write_version: u64) -> Result<
    (),
    RangeViolation,
> {
    if !fits_i64(lamports) {
        Err(RangeViolation::LamportsTooLarge)
    } else if !fits_i64(rent_epoch) {
        Err(RangeViolation::RentEpochTooLarge)
    } else if !fits_i64(write_version) {
        Err(RangeViolation::WriteVersionTooLarge)
    } else {
        Ok(())
    }
}

/// Rejects account numeric fields that exceed the signed 64-bit range.
pub fn range_check(lamports: u64, rent_epoch: u64, write_version: u64) -> (r: Result<
    (),
    RangeViolation,
>)
    ensures
        r == spec_range_check(lamports, rent_epoch, write_version),
{
    if lamports > i64::MAX as u64 {
        return Err(RangeViolation::LamportsTooLarge);
    }
    if rent_epoch > i64::MAX as u64 {
        return Err(RangeViolation::RentEpochTooLarge);
    }
    if write_version > i64::MAX as u64 {
        return Err(RangeViolation::WriteVersionTooLarge);
    }
    Ok(())
}

/// The range check as it applies to a whole account event.
pub open spec fn spec_update_range_check(u: UpdateAccountModel) -> Result<(), RangeViolation> {
    spec_range_check(u.lamports(), u.rent_epoch(), u.write_version())
}

/// The canonical account record, one row of the `account` table.
/// `pubkey` is the natural key; the pair `(slot, write_version)` orders
/// updates to one key.
#[derive(Clone, Debug, PartialEq, Eq)]
pub struct DbAccountInfo {
    pub pubkey: Vec<u8>,
    pub lamports: i64,
    pub owner: Vec<u8>,
    pub executable: bool,
    pub rent_epoch: i64,
    pub data: Vec<u8>,
    pub slot: i64,
    pub write_version: i64,
    pub txn_signature: Option<Vec<u8>>,
}

pub struct AccountRecordModel {
    pub pubkey: Seq<u8>,
    pub lamports: i64,
    pub owner: Seq<u8>,
    pub executable: bool,
    pub rent_epoch: i64,
    pub data: Seq<u8>,
    pub slot: i64,
    pub write_version: i64,
    pub txn_signature: Option<Seq<u8>>,
}

impl View for DbAccountInfo {
    type V = AccountRecordModel;

    open spec fn view(&self) -> AccountRecordModel {
        AccountRecordModel {
            pubkey: self.pubkey@,
            lamports: self.lamports,
            owner: self.owner@,
            executable: self.executable,
            rent_epoch: self.rent_epoch,
            data: self.data@,
            slot: self.slot,
            write_version: self.write_version,
            txn_signature: crate::events::opt_bytes_view(self.txn_signature),
        }
    }
}

/// The canonical conversion of an account event, defined whenever the
/// range check passes. Both schema versions map to the same record
/// shape; the legacy one carries no transaction signature. The slot is
/// narrowed as the store column is written: by reinterpretation.
pub open spec fn spec_account_record(u: UpdateAccountModel) -> AccountRecordModel {
    AccountRecordModel {
        pubkey: u.pubkey(),
        lamports: u.lamports() as i64,
        owner: u.owner(),
        executable: match u.account {
            AccountVersionsModel::V1(a) => a.executable,
            AccountVersionsModel::V2(a) => a.executable,
        },
        rent_epoch: u.rent_epoch() as i64,
        data: match u.account {
            AccountVersionsModel::V1(a) => a.data,
            AccountVersionsModel::V2(a) => a.data,
        },
        slot: u.slot as i64,
        write_version: u.write_version() as i64,
        txn_signature: match u.account {
            AccountVersionsModel::V1(_) => None,
            AccountVersionsModel::V2(a) => a.txn_signature,
        },
    }
}

impl DbAccountInfo {
    /// Converts an account event into the canonical record, rejecting
    /// any event whose numeric fields exceed the signed 64-bit range.
    pub fn try_from_update(update_account: UpdateAccount) -> (r: Result<
        DbAccountInfo,
        RangeViolation,
    >)
        ensures
            match r {
                Ok(rec) => spec_range_check(
                    update_account@.lamports(),
                    update_account@.rent_epoch(),
                    update_account@.write_version(),
                ) == Ok::<(), RangeViolation>(()) && rec@ == spec_account_record(update_account@),
                Err(e) => spec_range_check(
                    update_account@.lamports(),
                    update_account@.rent_epoch(),
                    update_account@.write_version(),
                ) == Err::<(), RangeViolation>(e),
            },
    {
        let slot = update_account.slot;
        match update_account.account {
            KafkaReplicaAccountInfoVersions::V0_0_1(account_info) => {
                range_check(account_info.lamports, account_info.rent_epoch, account_info.write_version)?;
                Ok(DbAccountInfo {
                    pubkey: account_info.pubkey,
                    lamports: account_info.lamports as i64,
                    owner: account_info.owner,
                    executable: account_info.executable,
                    rent_epoch: account_info.rent_epoch as i64,
                    data: account_info.data,
                    slot: #[verifier::truncate] (slot as i64),
                    write_version: account_info.write_version as i64,
                    txn_signature: None,
                })
            },
            KafkaReplicaAccountInfoVersions::V0_0_2(account_info) => {
                range_check(account_info.lamports, account_info.rent_epoch, account_info.write_version)?;
                Ok(DbAccountInfo {
                    pubkey: account_info.pubkey,
                    lamports: account_info.lamports as i64,
                    owner: account_info.owner,
                    executable: account_info.executable,
                    rent_epoch: account_info.rent_epoch as i64,
                    data: account_info.data,
                    slot: #[verifier::truncate] (slot as i64),
                    write_version: account_info.write_version as i64,
                    txn_signature: account_info.txn_signature,
                })
            },
        }
    }
}

/// The reward vocabulary as stored.
#[derive(Clone, Copy, Debug, PartialEq, Eq, Structural)]
pub enum DbRewardType {
    Fee,
    Rent,
    Staking,
    Voting,
}

/// One stored reward entry of a block row.
#[derive(Clone, Debug)]
pub struct DbReward {
    pub pubkey: String,
    pub lamports: i64,
    pub post_balance: i64,
    pub reward_type: Option<DbRewardType>,
    pub commission: Option<i16>,
}

pub struct DbRewardModel {
    pub pubkey: Seq<char>,
    pub lamports: i64,
    pub post_balance: i64,
    pub reward_type: Option<DbRewardType>,
    pub commission: Option<i16>,
}

impl View for DbReward {
    type V = DbRewardModel;

    open spec fn view(&self) -> DbRewardModel {
        DbRewardModel {
            pubkey: self.pubkey@,
            lamports: self.lamports,
            post_balance: self.post_balance,
            reward_type: self.reward_type,
            commission: self.commission,
        }
    }
}

/// One row of the `block` table.
#[derive(Clone, Debug)]
pub struct DbBlockInfo {
    pub slot: i64,
    pub blockhash: String,
    pub rewards: Vec<DbReward>,
    pub block_time: Option<i64>,
    pub block_height: Option<i64>,
}

pub struct BlockRecordModel {
    pub slot: i64,
    pub blockhash: Seq<char>,
    pub rewards: Seq<DbRewardModel>,
    pub block_time: Option<i64>,
    pub block_height: Option<i64>,
}

impl View for DbBlockInfo {
    type V = BlockRecordModel;

    open spec fn view(&self) -> BlockRecordModel {
        BlockRecordModel {
            slot: self.slot,
            blockhash: self.blockhash@,
            rewards: self.rewards@.map_values(|r: DbReward| r@),
            block_time: self.block_time,
            block_height: self.block_height,
        }
    }
}

pub open spec fn spec_db_reward_type(r: RewardType) -> DbRewardType {
    match r {
        RewardType::Fee => DbRewardType::Fee,
        RewardType::Rent => DbRewardType::Rent,
        RewardType::Staking => DbRewardType::Staking,
        RewardType::Voting => DbRewardType::Voting,
    }
}

impl DbRewardType {
    /// Maps the wire reward vocabulary onto the stored one.
    pub fn from_reward_type(reward_type: RewardType) -> (d: DbRewardType)
        ensures
            d == spec_db_reward_type(reward_type),
    {
        match reward_type {
            RewardType::Fee => DbRewardType::Fee,
            RewardType::Rent => DbRewardType::Rent,
            RewardType::Staking => DbRewardType::Staking,
            RewardType::Voting => DbRewardType::Voting,
        }
    }
}

/// The canonical conversion of one reward entry. The post-balance is
/// narrowed as the store column is written: by reinterpretation.
pub open spec fn spec_db_reward(r: RewardModel) -> DbRewardModel {
    DbRewardModel {
        pubkey: r.pubkey,
        lamports: r.lamports,
        post_balance: r.post_balance as i64,
        reward_type: match r.reward_type {
            Some(t) => Some(spec_db_reward_type(t)),
            None => None,
        },
        commission: match r.commission {
            Some(c) => Some(c as i16),
            None => None,
        },
    }
}

impl DbReward {
    /// Converts one wire reward entry into its stored form.
    pub fn from_reward(reward: Reward) -> (d: DbReward)
        ensures
            d@ == spec_db_reward(reward@),
    {
        DbReward {
            pubkey: reward.pubkey,
            lamports: reward.lamports,
            post_balance: #[verifier::truncate] (reward.post_balance as i64),
            reward_type: match reward.reward_type {
                Some(t) => Some(DbRewardType::from_reward_type(t)),
                None => None,
            },
            commission: match reward.commission {
                Some(c) => Some(c as i16),
                None => None,
            },
        }
    }
}

/// The canonical conversion of a block event.
pub open spec fn spec_block_record(b: BlockInfoModel) -> BlockRecordModel {
    BlockRecordModel {
        slot: b.slot as i64,
        blockhash: b.blockhash,
        rewards: b.rewards.map_values(|r: RewardModel| spec_db_reward(r)),
        block_time: b.block_time,
        block_height: match b.block_height {
            Some(h) => Some(h as i64),
            None => None,
        },
    }
}

impl DbBlockInfo {
    /// Converts a block event into its row form, entry by entry.
    pub fn from_block_info(block_info: KafkaReplicaBlockInfo) -> (d: DbBlockInfo)
        ensures
            d@ == spec_block_record(block_info@),
    {
        let mut rewards: Vec<DbReward> = Vec::new();
        let mut source = block_info.rewards;
        let n = source.len();
        let ghost source_model = source@.map_values(|r: Reward| r@);
        let mut i: usize = 0;
        while i < n
            invariant
                n == source.len(),
                source@.map_values(|r: Reward| r@) == source_model,
                i <= n,
                rewards@.len() == i,
                forall|j: int| 0 <= j < i ==> rewards@[j]@ == spec_db_reward(source_model[j]),
            decreases n - i,
        {
            let entry = source[i].clone_entry();
            rewards.push(DbReward::from_reward(entry));
            i = i + 1;
        }
        proof {
            assert(rewards@.map_values(|r: DbReward| r@) =~= source_model.map_values(
                |r: RewardModel| spec_db_reward(r),
            ));
        }
        DbBlockInfo {
            slot: #[verifier::truncate] (block_info.slot as i64),
            blockhash: block_info.blockhash,
            rewards,
            block_time: block_info.block_time,
            block_height: match block_info.block_height {
                Some(h) => Some(#[verifier::truncate] (h as i64)),
                None => None,
            },
        }
    }
}

} // verus!
