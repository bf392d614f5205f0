//! The persistence executor's decisions: which record each poll round
//! attempts, what a failed write does to the retry buffers, and how the
//! store connection's health moves between states.
//!
//! The loop around these — the idle sleep, the statement preparation
//! and execution, the reconnection attempts — suspends on the store
//! client and stays outside the library. It calls [`poll_round`] to
//! take one record per entity type, performs the writes, and reports
//! each outcome back through the `handle_*_write_result` functions;
//! a failed write re-enqueues the record, indefinitely.

use vstd::prelude::*;

use crate::events::UpdateSlotStatus;
use crate::queues::RetryQueues;
use crate::records::{DbAccountInfo, DbBlockInfo};

verus! {

/// Health of the store connection, as the executor tracks it.
#[derive(Clone, Copy, Debug, PartialEq, Eq, Structural)]
pub enum ConnectionState {
    Connected,
    Disconnected,
    Reconnecting,
}

/// What the executor observes about the connection at the top of a
/// poll round or during a reconnection attempt.
#[derive(Clone, Copy, Debug, PartialEq, Eq, Structural)]
pub enum ConnectionEvent {
    /// The liveness check at the top of the poll loop passed.
    LivenessConfirmed,
    /// The liveness check found the connection closed.
    LivenessLost,
    /// The executor began retrying the connection.
    RetryStarted,
    /// One reconnection attempt failed; retry continues on the fixed
    /// interval, indefinitely.
    RetryFailed,
    /// A reconnection attempt produced a live connection.
    RetrySucceeded,
}

/// The reconnection state machine: disconnection is detected lazily by
/// the liveness check, reconnection retries until it succeeds, and any
/// other observation leaves the state alone.
pub open spec fn spec_connection_step(
    state: ConnectionState,
    event: ConnectionEvent,
) -> ConnectionState {
    match state {
        ConnectionState::Connected => match event {
            ConnectionEvent::LivenessLost => ConnectionState::Disconnected,
            _ => ConnectionState::Connected,
        },
        ConnectionState::Disconnected => match event {
            ConnectionEvent::RetryStarted => ConnectionState::Reconnecting,
            _ => ConnectionState::Disconnected,
        },
        ConnectionState::Reconnecting => match event {
            ConnectionEvent::RetrySucceeded => ConnectionState::Connected,
            _ => ConnectionState::Reconnecting,
        },
    }
}

/// Advances the connection state by one observation.
pub fn connection_step(state: ConnectionState, event: ConnectionEvent) -> (next: ConnectionState)
    ensures
        next == spec_connection_step(state, event),
{
    match state {
        ConnectionState::Connected => match event {
            ConnectionEvent::LivenessLost => ConnectionState::Disconnected,
            _ => ConnectionState::Connected,
        },
        ConnectionState::Disconnected => match event {
            ConnectionEvent::RetryStarted => ConnectionState::Reconnecting,
            _ => ConnectionState::Disconnected,
        },
        ConnectionState::Reconnecting => match event {
            ConnectionEvent::RetrySucceeded => ConnectionState::Connected,
            _ => ConnectionState::Reconnecting,
        },
    }
}

/// What one poll round found: whether every buffer was empty at entry
/// (the idle signal) and the oldest pending record of each entity type,
/// dequeued in the fixed round order.
pub struct RoundPlan {
    pub idle: bool,
    pub account: Option<DbAccountInfo>,
    pub block: Option<DbBlockInfo>,
    pub slot: Option<UpdateSlotStatus>,
}

/// Polls the three buffers in the fixed round (account, then block,
/// then slot status), dequeuing the oldest entry of each.
pub fn poll_round(queues: &mut RetryQueues) -> (plan: RoundPlan)
    ensures
        plan.idle == (old(queues).accounts().len() == 0 && old(queues).blocks().len() == 0
            && old(queues).slots().len() == 0),
        match plan.account {
            Some(rec) => old(queues).accounts().len() > 0 && rec@ == old(queues).accounts()[0]
                && final(queues).accounts() == old(queues).accounts().subrange(
                1,
                old(queues).accounts().len() as int,
            ),
            None => old(queues).accounts().len() == 0 && final(queues).accounts()
                == old(queues).accounts(),
        },
        match plan.block {
            Some(rec) => old(queues).blocks().len() > 0 && rec@ == old(queues).blocks()[0]
                && final(queues).blocks() == old(queues).blocks().subrange(
                1,
                old(queues).blocks().len() as int,
            ),
            None => old(queues).blocks().len() == 0 && final(queues).blocks()
                == old(queues).blocks(),
        },
        match plan.slot {
            Some(event) => old(queues).slots().len() > 0 && event@ == old(queues).slots()[0]
                && final(queues).slots() == old(queues).slots().subrange(
                1,
                old(queues).slots().len() as int,
            ),
            None => old(queues).slots().len() == 0 && final(queues).slots() == old(queues).slots(),
        },
{
    let idle = queues.all_empty();
    let account = queues.pop_account();
    let block = queues.pop_block();
    let slot = queues.pop_slot();
    RoundPlan { idle, account, block, slot }
}

/// Settles one attempted account write: a success consumes the record,
/// a failure re-enqueues the very same record at the tail — it is
/// never discarded.
pub fn handle_account_write_result(queues: &mut RetryQueues, rec: DbAccountInfo, write_ok: bool)
    ensures
        final(queues).blocks() == old(queues).blocks(),
        final(queues).slots() == old(queues).slots(),
        write_ok ==> final(queues).accounts() == old(queues).accounts(),
        !write_ok ==> final(queues).accounts() == old(queues).accounts().push(rec@),
{
    if !write_ok {
        queues.push_account(rec);
    }
}

/// Settles one attempted block write; a failure re-enqueues the record.
pub fn handle_block_write_result(queues: &mut RetryQueues, rec: DbBlockInfo, write_ok: bool)
    ensures
        final(queues).accounts() == old(queues).accounts(),
        final(queues).slots() == old(queues).slots(),
        write_ok ==> final(queues).blocks() == old(queues).blocks(),
        !write_ok ==> final(queues).blocks() == old(queues).blocks().push(rec@),
{
    if !write_ok {
        queues.push_block(rec);
    }
}

/// Settles one attempted slot-status write; a failure re-enqueues the
/// event.
pub fn handle_slot_write_result(queues: &mut RetryQueues, event: UpdateSlotStatus, write_ok: bool)
    ensures
        final(queues).accounts() == old(queues).accounts(),
        final(queues).blocks() == old(queues).blocks(),
        write_ok ==> final(queues).slots() == old(queues).slots(),
        !write_ok ==> final(queues).slots() == old(queues).slots().push(event@),
{
    if !write_ok {
        queues.push_slot(event);
    }
}

/// Retry keeps every pending record (law): when the oldest entry is
/// dequeued and, after a failed write, re-enqueued at the tail, the
/// buffer holds exactly the entries it held before, rotated by one —
/// nothing is lost and nothing is duplicated.
pub proof fn lemma_requeue_preserves_pending<A>(before: Seq<A>)
    requires
        before.len() > 0,
    ensures
        before.subrange(1, before.len() as int).push(before[0]).to_multiset()
            == before.to_multiset(),
{
    broadcast use vstd::seq_lib::group_to_multiset_ensures;

    let tail = before.subrange(1, before.len() as int);
    assert(tail =~= before.remove(0));
    assert(before.to_multiset().count(before[0]) > 0) by {
        assert(before.contains(before[0]));
    }
    assert(tail.push(before[0]).to_multiset() =~= before.to_multiset());
}

} // verus!
