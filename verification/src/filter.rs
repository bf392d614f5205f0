//! The allow-list filter: decides, per account event, whether it is
//! persisted, and converts surviving events into canonical records.
//!
//! Slot-status and block events bypass the allow-list entirely.

use vstd::prelude::*;

use crate::config::FilterConfig;
use crate::events::{
    KafkaReplicaAccountInfoVersions, NotifyBlockMetaData, UpdateAccount, UpdateAccountModel,
    UpdateSlotStatus,
};
use crate::queues::RetryQueues;
use crate::records::{
    spec_account_record, spec_block_record, spec_update_range_check, DbAccountInfo, DbBlockInfo,
    RangeViolation,
};

verus! {

/// The base-58 text of a byte key under the default (Bitcoin) alphabet,
/// as `bs58` computes it: a function of the bytes alone.
pub uninterp spec fn base58_of(bytes: Seq<u8>) -> Seq<char>;

/// Relies on bs58::encode(..).into_string(): encodes the bytes as
/// base-58 text under the default alphabet.
#[verifier::external_body]
fn encode_base58(bytes: &Vec<u8>) -> (r: String)
    ensures
        r@ == base58_of(bytes@),
{
    bs58::encode(bytes).into_string()
}

/// The inclusion decision: an account event survives when its encoded
/// public key is on the pubkey allow-list or its encoded owner is on
/// the owner allow-list.
pub open spec fn spec_should_persist(
    include_pubkeys: Set<Seq<char>>,
    include_owners: Set<Seq<char>>,
    u: UpdateAccountModel,
) -> bool {
    include_pubkeys.contains(base58_of(u.pubkey())) || include_owners.contains(
        base58_of(u.owner()),
    )
}

/// Decides inclusion for an account event of either schema version.
pub fn should_persist_account(config: &FilterConfig, update_account: &UpdateAccount) -> (r: bool)
    ensures
        r == spec_should_persist(
            config.filter_include_pubkeys@,
            config.filter_include_owners@,
            update_account@,
        ),
{
    let (pubkey, owner) = match &update_account.account {
        KafkaReplicaAccountInfoVersions::V0_0_1(account_info) => (
            &account_info.pubkey,
            &account_info.owner,
        ),
        KafkaReplicaAccountInfoVersions::V0_0_2(account_info) => (
            &account_info.pubkey,
            &account_info.owner,
        ),
    };
    let pubkey_text = encode_base58(pubkey);
    let owner_text = encode_base58(owner);
    config.filter_include_pubkeys.contains(&pubkey_text) || config.filter_include_owners.contains(
        &owner_text,
    )
}

/// Handles one account event: decides inclusion, converts with the
/// range check, and enqueues the surviving record. An excluded event is
/// discarded silently (`Ok(false)`); an out-of-range one is rejected
/// and never reaches the queue.
pub fn process_account_update(
    config: &FilterConfig,
    queues: &mut RetryQueues,
    update_account: UpdateAccount,
) -> (r: Result<bool, RangeViolation>)
    ensures
        final(queues).blocks() == old(queues).blocks(),
        final(queues).slots() == old(queues).slots(),
        match r {
            Ok(enqueued) => {
                &&& enqueued == spec_should_persist(
                    config.filter_include_pubkeys@,
                    config.filter_include_owners@,
                    update_account@,
                )
                &&& enqueued ==> spec_update_range_check(update_account@) == Ok::<
                    (),
                    RangeViolation,
                >(()) && final(queues).accounts() == old(queues).accounts().push(
                    spec_account_record(update_account@),
                )
                &&& !enqueued ==> final(queues).accounts() == old(queues).accounts()
            },
            Err(e) => {
                &&& spec_should_persist(
                    config.filter_include_pubkeys@,
                    config.filter_include_owners@,
                    update_account@,
                )
                &&& spec_update_range_check(update_account@) == Err::<(), RangeViolation>(e)
                &&& final(queues).accounts() == old(queues).accounts()
            },
        },
{
    if should_persist_account(config, &update_account) {
        let rec = DbAccountInfo::try_from_update(update_account)?;
        queues.push_account(rec);
        Ok(true)
    } else {
        Ok(false)
    }
}

/// Handles one block event: converts its single supported schema
/// version and enqueues the row; no allow-list predicate applies.
pub fn process_block(queues: &mut RetryQueues, notify_block: NotifyBlockMetaData)
    ensures
        final(queues).accounts() == old(queues).accounts(),
        final(queues).slots() == old(queues).slots(),
        final(queues).blocks() == old(queues).blocks().push(spec_block_record(notify_block@)),
{
    match notify_block.block_info {
        crate::events::KafkaReplicaBlockInfoVersions::V0_0_1(block_info) => {
            queues.push_block(DbBlockInfo::from_block_info(block_info));
        },
    }
}

/// Handles one slot-status event: always enqueued, unfiltered and
/// unconverted (its row form is fixed at write time).
pub fn process_slot(queues: &mut RetryQueues, update_slot: UpdateSlotStatus)
    ensures
        final(queues).accounts() == old(queues).accounts(),
        final(queues).blocks() == old(queues).blocks(),
        final(queues).slots() == old(queues).slots().push(update_slot@),
{
    queues.push_slot(update_slot);
}

} // verus!
