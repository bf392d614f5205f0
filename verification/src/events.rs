//! Wire-format events as they arrive on the stream topics.
//!
//! Account updates exist in two schema versions: the legacy variant
//! without a transaction signature and the current variant with an
//! optional one. Slot-status and block events each have a single
//! supported version. Each exec type has a ghost model (`View`) over
//! sequences, which the contracts of the filter and conversion stages
//! speak of.

use vstd::prelude::*;

verus! {

/// Legacy account payload: no transaction signature.
pub struct KafkaReplicaAccountInfo {
    pub pubkey: Vec<u8>,
    pub lamports: u64,
    pub owner: Vec<u8>,
    pub executable: bool,
    pub rent_epoch: u64,
    pub data: Vec<u8>,
    pub write_version: u64,
}

/// Current account payload: carries an optional transaction signature.
pub struct KafkaReplicaAccountInfoV2 {
    pub pubkey: Vec<u8>,
    pub lamports: u64,
    pub owner: Vec<u8>,
    pub executable: bool,
    pub rent_epoch: u64,
    pub data: Vec<u8>,
    pub write_version: u64,
    pub txn_signature: Option<Vec<u8>>,
}

/// The closed set of account schema versions.
pub enum KafkaReplicaAccountInfoVersions {
    V0_0_1(KafkaReplicaAccountInfo),
    V0_0_2(KafkaReplicaAccountInfoV2),
}

/// An account update event: a versioned payload plus the slot it was
/// observed at.
pub struct UpdateAccount {
    pub account: KafkaReplicaAccountInfoVersions,
    pub slot: u64,
}

/// Slot commitment statuses, in the source system's vocabulary.
#[derive(Clone, Copy, Debug, PartialEq, Eq, Structural)]
pub enum SlotStatus {
    Processed,
    Rooted,
    Confirmed,
}

/// A slot status transition event.
pub struct UpdateSlotStatus {
    pub slot: u64,
    pub parent: Option<u64>,
    pub status: SlotStatus,
}

/// Reward vocabulary used by block reward entries.
#[derive(Clone, Copy, Debug, PartialEq, Eq, Structural)]
pub enum RewardType {
    Fee,
    Rent,
    Staking,
    Voting,
}

/// One reward entry of a block event.
pub struct Reward {
    pub pubkey: String,
    pub lamports: i64,
    pub post_balance: u64,
    pub reward_type: Option<RewardType>,
    pub commission: Option<u8>,
}

/// Block metadata payload.
pub struct KafkaReplicaBlockInfo {
    pub slot: u64,
    pub blockhash: String,
    pub rewards: Vec<Reward>,
    pub block_time: Option<i64>,
    pub block_height: Option<u64>,
}

/// The closed set of block schema versions (a single one is supported).
pub enum KafkaReplicaBlockInfoVersions {
    V0_0_1(KafkaReplicaBlockInfo),
}

/// A block metadata event.
pub struct NotifyBlockMetaData {
    pub block_info: KafkaReplicaBlockInfoVersions,
}

/// The entity types the pipeline distinguishes, one stream topic each.
#[derive(Clone, Copy, Debug, PartialEq, Eq, Structural)]
pub enum MessageType {
    UpdateAccount,
    UpdateSlot,
    NotifyTransaction,
    NotifyBlock,
}

// --- ghost models ---

pub struct AccountInfoModel {
    pub pubkey: Seq<u8>,
    pub lamports: u64,
    pub owner: Seq<u8>,
    pub executable: bool,
    pub rent_epoch: u64,
    pub data: Seq<u8>,
    pub write_version: u64,
}

pub struct AccountInfoV2Model {
    pub pubkey: Seq<u8>,
    pub lamports: u64,
    pub owner: Seq<u8>,
    pub executable: bool,
    pub rent_epoch: u64,
    pub data: Seq<u8>,
    pub write_version: u64,
    pub txn_signature: Option<Seq<u8>>,
}

pub enum AccountVersionsModel {
    V1(AccountInfoModel),
    V2(AccountInfoV2Model),
}

pub struct UpdateAccountModel {
    pub account: AccountVersionsModel,
    pub slot: u64,
}

pub struct RewardModel {
    pub pubkey: Seq<char>,
    pub lamports: i64,
    pub post_balance: u64,
    pub reward_type: Option<RewardType>,
    pub commission: Option<u8>,
}

pub struct BlockInfoModel {
    pub slot: u64,
    pub blockhash: Seq<char>,
    pub rewards: Seq<RewardModel>,
    pub block_time: Option<i64>,
    pub block_height: Option<u64>,
}

pub struct SlotStatusModel {
    pub slot: u64,
    pub parent: Option<u64>,
    pub status: SlotStatus,
}

pub open spec fn opt_bytes_view(o: Option<Vec<u8>>) -> Option<Seq<u8>> {
    match o {
        Some(v) => Some(v@),
        None => None,
    }
}

impl View for KafkaReplicaAccountInfo {
    type V = AccountInfoModel;

    open spec fn view(&self) -> AccountInfoModel {
        AccountInfoModel {
            pubkey: self.pubkey@,
            lamports: self.lamports,
            owner: self.owner@,
            executable: self.executable,
            rent_epoch: self.rent_epoch,
            data: self.data@,
            write_version: self.write_version,
        }
    }
}

impl View for KafkaReplicaAccountInfoV2 {
    type V = AccountInfoV2Model;

    open spec fn view(&self) -> AccountInfoV2Model {
        AccountInfoV2Model {
            pubkey: self.pubkey@,
            lamports: self.lamports,
            owner: self.owner@,
            executable: self.executable,
            rent_epoch: self.rent_epoch,
            data: self.data@,
            write_version: self.write_version,
            txn_signature: opt_bytes_view(self.txn_signature),
        }
    }
}

impl View for UpdateAccount {
    type V = UpdateAccountModel;

    open spec fn view(&self) -> UpdateAccountModel {
        UpdateAccountModel {
            account: match self.account {
                KafkaReplicaAccountInfoVersions::V0_0_1(a) => AccountVersionsModel::V1(a@),
                KafkaReplicaAccountInfoVersions::V0_0_2(a) => AccountVersionsModel::V2(a@),
            },
            slot: self.slot,
        }
    }
}

impl View for Reward {
    type V = RewardModel;

    open spec fn view(&self) -> RewardModel {
        RewardModel {
            pubkey: self.pubkey@,
            lamports: self.lamports,
            post_balance: self.post_balance,
            reward_type: self.reward_type,
            commission: self.commission,
        }
    }
}

impl View for KafkaReplicaBlockInfo {
    type V = BlockInfoModel;

    open spec fn view(&self) -> BlockInfoModel {
        BlockInfoModel {
            slot: self.slot,
            blockhash: self.blockhash@,
            rewards: self.rewards@.map_values(|r: Reward| r@),
            block_time: self.block_time,
            block_height: self.block_height,
        }
    }
}

impl View for NotifyBlockMetaData {
    type V = BlockInfoModel;

    open spec fn view(&self) -> BlockInfoModel {
        match self.block_info {
            KafkaReplicaBlockInfoVersions::V0_0_1(b) => b@,
        }
    }
}

impl View for UpdateSlotStatus {
    type V = SlotStatusModel;

    open spec fn view(&self) -> SlotStatusModel {
        SlotStatusModel { slot: self.slot, parent: self.parent, status: self.status }
    }
}

impl UpdateAccountModel {
    /// The identity key of the event, whichever schema version carries it.
    pub open spec fn pubkey(self) -> Seq<u8> {
        match self.account {
            AccountVersionsModel::V1(a) => a.pubkey,
            AccountVersionsModel::V2(a) => a.pubkey,
        }
    }

    /// The owner key of the event.
    pub open spec fn owner(self) -> Seq<u8> {
        match self.account {
            AccountVersionsModel::V1(a) => a.owner,
            AccountVersionsModel::V2(a) => a.owner,
        }
    }

    pub open spec fn lamports(self) -> u64 {
        match self.account {
            AccountVersionsModel::V1(a) => a.lamports,
            AccountVersionsModel::V2(a) => a.lamports,
        }
    }

    pub open spec fn rent_epoch(self) -> u64 {
        match self.account {
            AccountVersionsModel::V1(a) => a.rent_epoch,
            AccountVersionsModel::V2(a) => a.rent_epoch,
        }
    }

    pub open spec fn write_version(self) -> u64 {
        match self.account {
            AccountVersionsModel::V1(a) => a.write_version,
            AccountVersionsModel::V2(a) => a.write_version,
        }
    }
}

impl Reward {
    /// A copy of the entry with the same model.
    pub fn clone_entry(&self) -> (r: Reward)
        ensures
            r@ == self@,
    {
        Reward {
            pubkey: self.pubkey.clone(),
            lamports: self.lamports,
            post_balance: self.post_balance,
            reward_type: self.reward_type,
            commission: self.commission,
        }
    }
}

impl UpdateSlotStatus {
    /// The label under which a status is persisted.
    pub open spec fn spec_status_label(status: SlotStatus) -> Seq<char> {
        match status {
            SlotStatus::Processed => "Processed"@,
            SlotStatus::Rooted => "Rooted"@,
            SlotStatus::Confirmed => "Confirmed"@,
        }
    }

    /// Renders the status for the store's text column.
    pub fn status_label(&self) -> (s: String)
        ensures
            s@ == Self::spec_status_label(self.status),
    {
        match self.status {
            SlotStatus::Processed => "Processed".to_owned(),
            SlotStatus::Rooted => "Rooted".to_owned(),
            SlotStatus::Confirmed => "Confirmed".to_owned(),
        }
    }
}

} // verus!
