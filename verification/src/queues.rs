//! The retry queues: one unbounded FIFO per entity type, holding
//! records pending a write attempt.
//!
//! The buffers are `crossbeam_queue::SegQueue`s, outside code; their
//! contents are named by the `*_queue_elems` functions below, and each
//! method the library uses is wrapped with a contract over those names.

use vstd::prelude::*;

use crate::events::{SlotStatusModel, UpdateSlotStatus};
use crate::records::{AccountRecordModel, BlockRecordModel, DbAccountInfo, DbBlockInfo};

verus! {

#[verifier::external_type_specification]
#[verifier::external_body]
#[verifier::reject_recursive_types(T)]
pub struct ExSegQueue<T>(crossbeam_queue::SegQueue<T>);

/// The records an account queue holds, head first.
pub uninterp spec fn account_queue_elems(q: crossbeam_queue::SegQueue<DbAccountInfo>) -> Seq<
    AccountRecordModel,
>;

/// The records a block queue holds, head first.
pub uninterp spec fn block_queue_elems(q: crossbeam_queue::SegQueue<DbBlockInfo>) -> Seq<
    BlockRecordModel,
>;

/// The events a slot-status queue holds, head first.
pub uninterp spec fn slot_queue_elems(q: crossbeam_queue::SegQueue<UpdateSlotStatus>) -> Seq<
    SlotStatusModel,
>;

/// Relies on crossbeam_queue::SegQueue::new: creates an empty queue.
#[verifier::external_body]
fn account_queue_new() -> (q: crossbeam_queue::SegQueue<DbAccountInfo>)
    ensures
        account_queue_elems(q) == Seq::<AccountRecordModel>::empty(),
{
    crossbeam_queue::SegQueue::new()
}

/// Relies on crossbeam_queue::SegQueue::push: appends at the tail.
#[verifier::external_body]
fn account_queue_push(q: &mut crossbeam_queue::SegQueue<DbAccountInfo>, rec: DbAccountInfo)
    ensures
        account_queue_elems(*final(q)) == account_queue_elems(*old(q)).push(rec@),
{
    q.push(rec);
}

/// Relies on crossbeam_queue::SegQueue::pop: removes and returns the
/// head, or returns nothing from an empty queue.
#[verifier::external_body]
fn account_queue_pop(q: &mut crossbeam_queue::SegQueue<DbAccountInfo>) -> (r: Option<DbAccountInfo>)
    ensures
        match r {
            Some(rec) => account_queue_elems(*old(q)).len() > 0 && rec@ == account_queue_elems(
                *old(q),
            )[0] && account_queue_elems(*final(q)) == account_queue_elems(*old(q)).subrange(
                1,
                account_queue_elems(*old(q)).len() as int,
            ),
            None => account_queue_elems(*old(q)).len() == 0 && account_queue_elems(*final(q))
                == account_queue_elems(*old(q)),
        },
{
    q.pop()
}

/// Relies on crossbeam_queue::SegQueue::is_empty.
#[verifier::external_body]
fn account_queue_is_empty(q: &crossbeam_queue::SegQueue<DbAccountInfo>) -> (r: bool)
    ensures
        r == (account_queue_elems(*q).len() == 0),
{
    q.is_empty()
}

/// Relies on crossbeam_queue::SegQueue::new: creates an empty queue.
#[verifier::external_body]
fn block_queue_new() -> (q: crossbeam_queue::SegQueue<DbBlockInfo>)
    ensures
        block_queue_elems(q) == Seq::<BlockRecordModel>::empty(),
{
    crossbeam_queue::SegQueue::new()
}

/// Relies on crossbeam_queue::SegQueue::push: appends at the tail.
#[verifier::external_body]
fn block_queue_push(q: &mut crossbeam_queue::SegQueue<DbBlockInfo>, rec: DbBlockInfo)
    ensures
        block_queue_elems(*final(q)) == block_queue_elems(*old(q)).push(rec@),
{
    q.push(rec);
}

/// Relies on crossbeam_queue::SegQueue::pop: removes and returns the
/// head, or returns nothing from an empty queue.
#[verifier::external_body]
fn block_queue_pop(q: &mut crossbeam_queue::SegQueue<DbBlockInfo>) -> (r: Option<DbBlockInfo>)
    ensures
        match r {
            Some(rec) => block_queue_elems(*old(q)).len() > 0 && rec@ == block_queue_elems(
                *old(q),
            )[0] && block_queue_elems(*final(q)) == block_queue_elems(*old(q)).subrange(
                1,
                block_queue_elems(*old(q)).len() as int,
            ),
            None => block_queue_elems(*old(q)).len() == 0 && block_queue_elems(*final(q))
                == block_queue_elems(*old(q)),
        },
{
    q.pop()
}

/// Relies on crossbeam_queue::SegQueue::is_empty.
#[verifier::external_body]
fn block_queue_is_empty(q: &crossbeam_queue::SegQueue<DbBlockInfo>) -> (r: bool)
    ensures
        r == (block_queue_elems(*q).len() == 0),
{
    q.is_empty()
}

/// Relies on crossbeam_queue::SegQueue::new: creates an empty queue.
#[verifier::external_body]
fn slot_queue_new() -> (q: crossbeam_queue::SegQueue<UpdateSlotStatus>)
    ensures
        slot_queue_elems(q) == Seq::<SlotStatusModel>::empty(),
{
    crossbeam_queue::SegQueue::new()
}

/// Relies on crossbeam_queue::SegQueue::push: appends at the tail.
#[verifier::external_body]
fn slot_queue_push(q: &mut crossbeam_queue::SegQueue<UpdateSlotStatus>, event: UpdateSlotStatus)
    ensures
        slot_queue_elems(*final(q)) == slot_queue_elems(*old(q)).push(event@),
{
    q.push(event);
}

/// Relies on crossbeam_queue::SegQueue::pop: removes and returns the
/// head, or returns nothing from an empty queue.
#[verifier::external_body]
fn slot_queue_pop(q: &mut crossbeam_queue::SegQueue<UpdateSlotStatus>) -> (r: Option<
    UpdateSlotStatus,
>)
    ensures
        match r {
            Some(event) => slot_queue_elems(*old(q)).len() > 0 && event@ == slot_queue_elems(
                *old(q),
            )[0] && slot_queue_elems(*final(q)) == slot_queue_elems(*old(q)).subrange(
                1,
                slot_queue_elems(*old(q)).len() as int,
            ),
            None => slot_queue_elems(*old(q)).len() == 0 && slot_queue_elems(*final(q))
                == slot_queue_elems(*old(q)),
        },
{
    q.pop()
}

/// Relies on crossbeam_queue::SegQueue::is_empty.
#[verifier::external_body]
fn slot_queue_is_empty(q: &crossbeam_queue::SegQueue<UpdateSlotStatus>) -> (r: bool)
    ensures
        r == (slot_queue_elems(*q).len() == 0),
{
    q.is_empty()
}

/// The three per-entity retry buffers the persistence executor drains.
pub struct RetryQueues {
    account_queue: crossbeam_queue::SegQueue<DbAccountInfo>,
    block_queue: crossbeam_queue::SegQueue<DbBlockInfo>,
    slot_queue: crossbeam_queue::SegQueue<UpdateSlotStatus>,
}

impl RetryQueues {
    /// Account records pending a write, head first.
    pub closed spec fn accounts(&self) -> Seq<AccountRecordModel> {
        account_queue_elems(self.account_queue)
    }

    /// Block records pending a write, head first.
    pub closed spec fn blocks(&self) -> Seq<BlockRecordModel> {
        block_queue_elems(self.block_queue)
    }

    /// Slot-status events pending a write, head first.
    pub closed spec fn slots(&self) -> Seq<SlotStatusModel> {
        slot_queue_elems(self.slot_queue)
    }

    /// Three empty buffers.
    pub fn new() -> (q: RetryQueues)
        ensures
            q.accounts() == Seq::<AccountRecordModel>::empty(),
            q.blocks() == Seq::<BlockRecordModel>::empty(),
            q.slots() == Seq::<SlotStatusModel>::empty(),
    {
        RetryQueues {
            account_queue: account_queue_new(),
            block_queue: block_queue_new(),
            slot_queue: slot_queue_new(),
        }
    }

    /// Enqueues an account record at the tail; never blocks, never fails.
    pub fn push_account(&mut self, rec: DbAccountInfo)
        ensures
            final(self).accounts() == old(self).accounts().push(rec@),
            final(self).blocks() == old(self).blocks(),
            final(self).slots() == old(self).slots(),
    {
        account_queue_push(&mut self.account_queue, rec);
    }

    /// Dequeues the oldest account record, if any.
    pub fn pop_account(&mut self) -> (r: Option<DbAccountInfo>)
        ensures
            final(self).blocks() == old(self).blocks(),
            final(self).slots() == old(self).slots(),
            match r {
                Some(rec) => old(self).accounts().len() > 0 && rec@ == old(self).accounts()[0]
                    && final(self).accounts() == old(self).accounts().subrange(
                    1,
                    old(self).accounts().len() as int,
                ),
                None => old(self).accounts().len() == 0 && final(self).accounts() == old(self).accounts(),
            },
    {
        account_queue_pop(&mut self.account_queue)
    }

    /// Enqueues a block record at the tail; never blocks, never fails.
    pub fn push_block(&mut self, rec: DbBlockInfo)
        ensures
            final(self).blocks() == old(self).blocks().push(rec@),
            final(self).accounts() == old(self).accounts(),
            final(self).slots() == old(self).slots(),
    {
        block_queue_push(&mut self.block_queue, rec);
    }

    /// Dequeues the oldest block record, if any.
    pub fn pop_block(&mut self) -> (r: Option<DbBlockInfo>)
        ensures
            final(self).accounts() == old(self).accounts(),
            final(self).slots() == old(self).slots(),
            match r {
                Some(rec) => old(self).blocks().len() > 0 && rec@ == old(self).blocks()[0]
                    && final(self).blocks() == old(self).blocks().subrange(
                    1,
                    old(self).blocks().len() as int,
                ),
                None => old(self).blocks().len() == 0 && final(self).blocks() == old(self).blocks(),
            },
    {
        block_queue_pop(&mut self.block_queue)
    }

    /// Enqueues a slot-status event at the tail; never blocks, never fails.
    pub fn push_slot(&mut self, event: UpdateSlotStatus)
        ensures
            final(self).slots() == old(self).slots().push(event@),
            final(self).accounts() == old(self).accounts(),
            final(self).blocks() == old(self).blocks(),
    {
        slot_queue_push(&mut self.slot_queue, event);
    }

    /// Dequeues the oldest slot-status event, if any.
    pub fn pop_slot(&mut self) -> (r: Option<UpdateSlotStatus>)
        ensures
            final(self).accounts() == old(self).accounts(),
            final(self).blocks() == old(self).blocks(),
            match r {
                Some(event) => old(self).slots().len() > 0 && event@ == old(self).slots()[0]
                    && final(self).slots() == old(self).slots().subrange(
                    1,
                    old(self).slots().len() as int,
                ),
                None => old(self).slots().len() == 0 && final(self).slots() == old(self).slots(),
            },
    {
        slot_queue_pop(&mut self.slot_queue)
    }

    /// Whether every buffer is empty (the executor's idle test).
    pub fn all_empty(&self) -> (r: bool)
        ensures
            r == (self.accounts().len() == 0 && self.blocks().len() == 0 && self.slots().len()
                == 0),
    {
        account_queue_is_empty(&self.account_queue) && block_queue_is_empty(&self.block_queue)
            && slot_queue_is_empty(&self.slot_queue)
    }
}

} // verus!
