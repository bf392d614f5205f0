//! The relational store's visible behaviour: three tables and the
//! exact effect of each statement the executor runs against them.
//!
//! The `account` table is written with a version-guarded upsert: on a
//! key conflict the row is replaced only when the incoming
//! `(slot, write_version)` pair is strictly greater, so out-of-order
//! redelivery can never regress a row. The `slot` table is overwritten
//! unconditionally (last write wins), and the `block` table is
//! append-only.

use vstd::pervasive::VecAdditionalExecFns;
use vstd::prelude::*;

use crate::events::{SlotStatus, SlotStatusModel, UpdateSlotStatus};
use crate::records::{AccountRecordModel, BlockRecordModel, DbAccountInfo, DbBlockInfo};

verus! {

/// The version guard: whether an incoming record strictly supersedes a
/// stored one, by `(slot, write_version)` lexicographically.
pub open spec fn spec_newer(new: AccountRecordModel, cur: AccountRecordModel) -> bool {
    new.slot > cur.slot || (new.slot == cur.slot && new.write_version > cur.write_version)
}

/// One stored `account` row: the record plus its write timestamp.
pub struct AccountRow {
    pub account: DbAccountInfo,
    pub updated_on: i64,
}

pub struct AccountRowModel {
    pub account: AccountRecordModel,
    pub updated_on: i64,
}

impl View for AccountRow {
    type V = AccountRowModel;

    open spec fn view(&self) -> AccountRowModel {
        AccountRowModel { account: self.account@, updated_on: self.updated_on }
    }
}

/// The effect of one account upsert on the row stored under the
/// record's key: insert when absent, replace when strictly newer,
/// otherwise leave the stored row unchanged.
pub open spec fn spec_upsert_row(
    cur: Option<AccountRowModel>,
    rec: AccountRecordModel,
    updated_on: i64,
) -> Option<AccountRowModel> {
    match cur {
        None => Some(AccountRowModel { account: rec, updated_on }),
        Some(row) => if spec_newer(rec, row.account) {
            Some(AccountRowModel { account: rec, updated_on })
        } else {
            Some(row)
        },
    }
}

/// Idempotent upsert (law): an update whose `(slot, write_version)`
/// does not exceed the stored row's leaves the stored row — all its
/// fields — unchanged.
pub proof fn lemma_idempotent_upsert(
    cur: AccountRowModel,
    rec: AccountRecordModel,
    updated_on: i64,
)
    requires
        !spec_newer(rec, cur.account),
    ensures
        spec_upsert_row(Some(cur), rec, updated_on) == Some(cur),
{
}

/// The row stored under one key after a run of upserts to that key,
/// oldest applied first; each element pairs a record with its write
/// timestamp.
pub open spec fn spec_apply_updates(
    cur: Option<AccountRowModel>,
    updates: Seq<(AccountRecordModel, i64)>,
) -> Option<AccountRowModel>
    decreases updates.len(),
{
    if updates.len() == 0 {
        cur
    } else {
        spec_apply_updates(
            spec_upsert_row(cur, updates[0].0, updates[0].1),
            updates.drop_first(),
        )
    }
}

/// A whole run of stale updates is still a no-op: when none of the
/// updates strictly supersedes the stored row, applying them all — in
/// any order — leaves the stored row unchanged.
pub proof fn lemma_stale_run(cur: AccountRowModel, updates: Seq<(AccountRecordModel, i64)>)
    requires
        forall|j: int| 0 <= j < updates.len() ==> !spec_newer(#[trigger] updates[j].0, cur.account),
    ensures
        spec_apply_updates(Some(cur), updates) == Some(cur),
    decreases updates.len(),
{
    if updates.len() > 0 {
        assert(spec_upsert_row(Some(cur), updates[0].0, updates[0].1) == Some(cur));
        assert forall|j: int|
            0 <= j < updates.drop_first().len() implies !spec_newer(
            #[trigger] updates.drop_first()[j].0,
            cur.account,
        ) by {
            assert(updates.drop_first()[j] == updates[j + 1]);
        }
        lemma_stale_run(cur, updates.drop_first());
    }
}

/// Monotonic acceptance (law): for updates to one key applied in any
/// order, the one whose `(slot, write_version)` strictly supersedes
/// the stored row and every other update in the run decides the final
/// stored row.
pub proof fn lemma_monotonic_acceptance(
    cur: Option<AccountRowModel>,
    updates: Seq<(AccountRecordModel, i64)>,
    k: int,
)
    requires
        0 <= k < updates.len(),
        forall|j: int|
            0 <= j < updates.len() && j != k ==> spec_newer(updates[k].0, #[trigger] updates[j].0),
        match cur {
            Some(row) => spec_newer(updates[k].0, row.account),
            None => true,
        },
    ensures
        spec_apply_updates(cur, updates) == Some(
            AccountRowModel { account: updates[k].0, updated_on: updates[k].1 },
        ),
    decreases updates.len(),
{
    let cur2 = spec_upsert_row(cur, updates[0].0, updates[0].1);
    if k == 0 {
        let winner = AccountRowModel { account: updates[0].0, updated_on: updates[0].1 };
        assert(cur2 == Some(winner));
        assert forall|j: int|
            0 <= j < updates.drop_first().len() implies !spec_newer(
            #[trigger] updates.drop_first()[j].0,
            winner.account,
        ) by {
            assert(updates.drop_first()[j] == updates[j + 1]);
        }
        lemma_stale_run(winner, updates.drop_first());
    } else {
        assert forall|j: int|
            0 <= j < updates.drop_first().len() && j != k - 1 implies spec_newer(
            updates.drop_first()[k - 1].0,
            #[trigger] updates.drop_first()[j].0,
        ) by {
            assert(updates.drop_first()[j] == updates[j + 1]);
            assert(updates.drop_first()[k - 1] == updates[k]);
        }
        assert(updates.drop_first()[k - 1] == updates[k]);
        lemma_monotonic_acceptance(cur2, updates.drop_first(), k - 1);
    }
}

/// The first row carrying the key, scanning from the front.
pub open spec fn seq_lookup(rows: Seq<AccountRowModel>, pk: Seq<u8>) -> Option<AccountRowModel>
    decreases rows.len(),
{
    if rows.len() == 0 {
        None
    } else if rows[0].account.pubkey == pk {
        Some(rows[0])
    } else {
        seq_lookup(rows.drop_first(), pk)
    }
}

/// Each key appears on at most one row: `pubkey` is the primary key.
pub open spec fn unique_keys(rows: Seq<AccountRowModel>) -> bool {
    forall|i: int, j: int|
        0 <= i < j < rows.len() ==> rows[i].account.pubkey != rows[j].account.pubkey
}

proof fn lemma_seq_lookup_first_match(rows: Seq<AccountRowModel>, i: int, pk: Seq<u8>)
    requires
        0 <= i < rows.len(),
        forall|j: int| 0 <= j < i ==> rows[j].account.pubkey != pk,
        rows[i].account.pubkey == pk,
    ensures
        seq_lookup(rows, pk) == Some(rows[i]),
    decreases i,
{
    if i > 0 {
        lemma_seq_lookup_first_match(rows.drop_first(), i - 1, pk);
    }
}

proof fn lemma_seq_lookup_no_match(rows: Seq<AccountRowModel>, pk: Seq<u8>)
    requires
        forall|j: int| 0 <= j < rows.len() ==> rows[j].account.pubkey != pk,
    ensures
        seq_lookup(rows, pk) is None,
    decreases rows.len(),
{
    if rows.len() > 0 {
        lemma_seq_lookup_no_match(rows.drop_first(), pk);
    }
}

proof fn lemma_seq_lookup_update(
    rows: Seq<AccountRowModel>,
    i: int,
    row: AccountRowModel,
    pk: Seq<u8>,
)
    requires
        0 <= i < rows.len(),
        forall|j: int| 0 <= j < i ==> rows[j].account.pubkey != rows[i].account.pubkey,
        row.account.pubkey == rows[i].account.pubkey,
    ensures
        seq_lookup(rows.update(i, row), pk) == if pk == rows[i].account.pubkey {
            Some(row)
        } else {
            seq_lookup(rows, pk)
        },
    decreases i,
{
    let updated = rows.update(i, row);
    if i == 0 {
        if pk != rows[0].account.pubkey {
            assert(updated.drop_first() =~= rows.drop_first());
        }
    } else {
        assert(updated.drop_first() =~= rows.drop_first().update(i - 1, row));
        lemma_seq_lookup_update(rows.drop_first(), i - 1, row, pk);
    }
}

proof fn lemma_seq_lookup_push(rows: Seq<AccountRowModel>, row: AccountRowModel, pk: Seq<u8>)
    ensures
        seq_lookup(rows.push(row), pk) == match seq_lookup(rows, pk) {
            Some(found) => Some(found),
            None => if row.account.pubkey == pk {
                Some(row)
            } else {
                None
            },
        },
    decreases rows.len(),
{
    let pushed = rows.push(row);
    if rows.len() == 0 {
        assert(pushed[0] == row);
        if row.account.pubkey != pk {
            assert(pushed.drop_first() =~= Seq::<AccountRowModel>::empty());
            assert(seq_lookup(pushed.drop_first(), pk) is None);
        }
    } else {
        assert(pushed[0] == rows[0]);
        if rows[0].account.pubkey == pk {
            assert(seq_lookup(pushed, pk) == Some(rows[0]));
        } else {
            assert(pushed.drop_first() =~= rows.drop_first().push(row));
            lemma_seq_lookup_push(rows.drop_first(), row, pk);
        }
    }
}

/// Compares two byte keys.
fn bytes_eq(a: &Vec<u8>, b: &Vec<u8>) -> (r: bool)
    ensures
        r == (a@ == b@),
{
    if a.len() != b.len() {
        proof {
            assert(a@ != b@);
        }
        return false;
    }
    let n = a.len();
    let mut i: usize = 0;
    while i < n
        invariant
            n == a.len() && n == b.len(),
            i <= n,
            forall|j: int| 0 <= j < i ==> a@[j] == b@[j],
        decreases n - i,
    {
        if a[i] != b[i] {
            return false;
        }
        i = i + 1;
    }
    proof {
        assert(a@ =~= b@);
    }
    true
}

/// The version guard, on records.
fn newer_than(new: &DbAccountInfo, cur: &DbAccountInfo) -> (r: bool)
    ensures
        r == spec_newer(new@, cur@),
{
    new.slot > cur.slot || (new.slot == cur.slot && new.write_version > cur.write_version)
}

/// The `account` table: rows keyed by `pubkey`, written only through
/// the version-guarded upsert.
pub struct AccountTable {
    rows: Vec<AccountRow>,
}

impl AccountTable {
    pub closed spec fn rows_model(&self) -> Seq<AccountRowModel> {
        self.rows@.map_values(|r: AccountRow| r@)
    }

    /// The primary-key constraint.
    pub open spec fn wf(&self) -> bool {
        unique_keys(self.rows_model())
    }

    /// The row stored under a key.
    pub open spec fn spec_lookup(&self, pk: Seq<u8>) -> Option<AccountRowModel> {
        seq_lookup(self.rows_model(), pk)
    }

    /// An empty table.
    pub fn new() -> (t: AccountTable)
        ensures
            t.wf(),
            forall|pk: Seq<u8>| t.spec_lookup(pk) is None,
    {
        let t = AccountTable { rows: Vec::new() };
        proof {
            assert(t.rows_model() =~= Seq::<AccountRowModel>::empty());
        }
        t
    }

    /// The row stored under the key, if any.
    pub fn find_account(&self, pubkey: &Vec<u8>) -> (r: Option<&AccountRow>)
        ensures
            match r {
                Some(row) => self.spec_lookup(pubkey@) == Some(row@),
                None => self.spec_lookup(pubkey@) is None,
            },
    {
        let n = self.rows.len();
        let mut i: usize = 0;
        while i < n
            invariant
                n == self.rows.len(),
                i <= n,
                forall|j: int| 0 <= j < i ==> self.rows_model()[j].account.pubkey != pubkey@,
            decreases n - i,
        {
            if bytes_eq(&self.rows[i].account.pubkey, pubkey) {
                proof {
                    lemma_seq_lookup_first_match(self.rows_model(), i as int, pubkey@);
                }
                return Some(&self.rows[i]);
            }
            proof {
                assert(self.rows_model()[i as int] == self.rows@[i as int]@);
            }
            i = i + 1;
        }
        proof {
            lemma_seq_lookup_no_match(self.rows_model(), pubkey@);
        }
        None
    }

    /// Executes one version-guarded upsert: inserts an absent key,
    /// replaces a strictly superseded row, and leaves everything else
    /// exactly as it was — a stale update is a silent no-op, not an
    /// error.
    pub fn upsert_account(&mut self, rec: DbAccountInfo, updated_on: i64)
        requires
            old(self).wf(),
        ensures
            final(self).wf(),
            final(self).spec_lookup(rec.pubkey@) == spec_upsert_row(
                old(self).spec_lookup(rec.pubkey@),
                rec@,
                updated_on,
            ),
            forall|pk: Seq<u8>|
                pk != rec.pubkey@ ==> final(self).spec_lookup(pk) == old(self).spec_lookup(pk),
            (match old(self).spec_lookup(rec.pubkey@) {
                Some(row) => !spec_newer(rec@, row.account),
                None => false,
            }) ==> *final(self) == *old(self),
    {
        let ghost old_model = self.rows_model();
        let ghost pk = rec.pubkey@;
        let n = self.rows.len();
        let mut i: usize = 0;
        while i < n
            invariant
                n == self.rows.len(),
                i <= n,
                *self == *old(self),
                old_model == self.rows_model(),
                old_model.len() == n,
                unique_keys(old_model),
                pk == rec.pubkey@,
                forall|j: int| 0 <= j < i ==> self.rows_model()[j].account.pubkey != pk,
            decreases n - i,
        {
            if bytes_eq(&self.rows[i].account.pubkey, &rec.pubkey) {
                proof {
                    lemma_seq_lookup_first_match(old_model, i as int, pk);
                }
                if newer_than(&rec, &self.rows[i].account) {
                    let row = AccountRow { account: rec, updated_on };
                    let ghost row_model = row@;
                    self.rows.set(i, row);
                    proof {
                        assert(self.rows_model() =~= old_model.update(i as int, row_model));
                        assert forall|q: Seq<u8>|
                            seq_lookup(self.rows_model(), q) == if q == old_model[i as int].account.pubkey {
                                Some(row_model)
                            } else {
                                seq_lookup(old_model, q)
                            } by {
                            lemma_seq_lookup_update(old_model, i as int, row_model, q);
                        }
                        assert forall|a: int, b: int|
                            0 <= a < b < self.rows_model().len() implies self.rows_model()[a].account.pubkey
                            != self.rows_model()[b].account.pubkey by {
                            assert(old_model[a].account.pubkey != old_model[b].account.pubkey);
                        }
                    }
                }
                return ;
            }
            proof {
                assert(self.rows_model()[i as int] == self.rows@[i as int]@);
            }
            i = i + 1;
        }
        proof {
            assert(forall|j: int| 0 <= j < old_model.len() ==> old_model[j].account.pubkey != pk);
            lemma_seq_lookup_no_match(old_model, pk);
        }
        let row = AccountRow { account: rec, updated_on };
        let ghost row_model = row@;
        self.rows.push(row);
        proof {
            assert(self.rows_model() =~= old_model.push(row_model));
            assert forall|q: Seq<u8>|
                seq_lookup(self.rows_model(), q) == (match seq_lookup(old_model, q) {
                    Some(found) => Some(found),
                    None => if row_model.account.pubkey == q {
                        Some(row_model)
                    } else {
                        None
                    },
                }) by {
                lemma_seq_lookup_push(old_model, row_model, q);
            }
            assert forall|a: int, b: int|
                0 <= a < b < self.rows_model().len() implies self.rows_model()[a].account.pubkey
                != self.rows_model()[b].account.pubkey by {
                if b < old_model.len() {
                    assert(old_model[a].account.pubkey != old_model[b].account.pubkey);
                } else {
                    assert(self.rows_model()[b] == row_model);
                    assert(old_model[a].account.pubkey != pk);
                }
            }
        }
    }
}

/// One stored `slot` row. The status vocabulary is kept as the enum;
/// the write layer renders it to text when binding the statement.
#[derive(Clone, Copy, Debug, PartialEq, Eq, Structural)]
pub struct SlotRow {
    pub slot: i64,
    pub parent: Option<i64>,
    pub status: SlotStatus,
    pub updated_on: i64,
}

/// The row a slot-status event writes: slot and parent narrowed by
/// reinterpretation, the timestamp assigned at write time.
pub open spec fn spec_slot_row(e: SlotStatusModel, updated_on: i64) -> SlotRow {
    SlotRow {
        slot: e.slot as i64,
        parent: match e.parent {
            Some(p) => Some(p as i64),
            None => None,
        },
        status: e.status,
        updated_on,
    }
}

/// The first row carrying the slot, scanning from the front.
pub open spec fn seq_slot_lookup(rows: Seq<SlotRow>, slot: i64) -> Option<SlotRow>
    decreases rows.len(),
{
    if rows.len() == 0 {
        None
    } else if rows[0].slot == slot {
        Some(rows[0])
    } else {
        seq_slot_lookup(rows.drop_first(), slot)
    }
}

/// Each slot appears on at most one row: `slot` is the primary key.
pub open spec fn unique_slots(rows: Seq<SlotRow>) -> bool {
    forall|i: int, j: int| 0 <= i < j < rows.len() ==> rows[i].slot != rows[j].slot
}

proof fn lemma_slot_lookup_first_match(rows: Seq<SlotRow>, i: int, slot: i64)
    requires
        0 <= i < rows.len(),
        forall|j: int| 0 <= j < i ==> rows[j].slot != slot,
        rows[i].slot == slot,
    ensures
        seq_slot_lookup(rows, slot) == Some(rows[i]),
    decreases i,
{
    if i > 0 {
        lemma_slot_lookup_first_match(rows.drop_first(), i - 1, slot);
    }
}

proof fn lemma_slot_lookup_no_match(rows: Seq<SlotRow>, slot: i64)
    requires
        forall|j: int| 0 <= j < rows.len() ==> rows[j].slot != slot,
    ensures
        seq_slot_lookup(rows, slot) is None,
    decreases rows.len(),
{
    if rows.len() > 0 {
        lemma_slot_lookup_no_match(rows.drop_first(), slot);
    }
}

proof fn lemma_slot_lookup_update(rows: Seq<SlotRow>, i: int, row: SlotRow, slot: i64)
    requires
        0 <= i < rows.len(),
        forall|j: int| 0 <= j < i ==> rows[j].slot != rows[i].slot,
        row.slot == rows[i].slot,
    ensures
        seq_slot_lookup(rows.update(i, row), slot) == if slot == rows[i].slot {
            Some(row)
        } else {
            seq_slot_lookup(rows, slot)
        },
    decreases i,
{
    let updated = rows.update(i, row);
    if i == 0 {
        if slot != rows[0].slot {
            assert(updated.drop_first() =~= rows.drop_first());
        }
    } else {
        assert(updated.drop_first() =~= rows.drop_first().update(i - 1, row));
        lemma_slot_lookup_update(rows.drop_first(), i - 1, row, slot);
    }
}

proof fn lemma_slot_lookup_push(rows: Seq<SlotRow>, row: SlotRow, slot: i64)
    ensures
        seq_slot_lookup(rows.push(row), slot) == match seq_slot_lookup(rows, slot) {
            Some(found) => Some(found),
            None => if row.slot == slot {
                Some(row)
            } else {
                None
            },
        },
    decreases rows.len(),
{
    let pushed = rows.push(row);
    if rows.len() == 0 {
        assert(pushed[0] == row);
        if row.slot != slot {
            assert(pushed.drop_first() =~= Seq::<SlotRow>::empty());
            assert(seq_slot_lookup(pushed.drop_first(), slot) is None);
        }
    } else {
        assert(pushed[0] == rows[0]);
        if rows[0].slot == slot {
            assert(seq_slot_lookup(pushed, slot) == Some(rows[0]));
        } else {
            assert(pushed.drop_first() =~= rows.drop_first().push(row));
            lemma_slot_lookup_push(rows.drop_first(), row, slot);
        }
    }
}

/// The `slot` table: rows keyed by `slot`, overwritten unconditionally
/// on conflict (last write wins).
pub struct SlotTable {
    rows: Vec<SlotRow>,
}

impl SlotTable {
    pub closed spec fn rows_model(&self) -> Seq<SlotRow> {
        self.rows@
    }

    /// The primary-key constraint.
    pub open spec fn wf(&self) -> bool {
        unique_slots(self.rows_model())
    }

    /// The row stored under a slot.
    pub open spec fn spec_lookup(&self, slot: i64) -> Option<SlotRow> {
        seq_slot_lookup(self.rows_model(), slot)
    }

    /// An empty table.
    pub fn new() -> (t: SlotTable)
        ensures
            t.wf(),
            forall|slot: i64| t.spec_lookup(slot) is None,
    {
        let t = SlotTable { rows: Vec::new() };
        proof {
            assert(t.rows_model() =~= Seq::<SlotRow>::empty());
        }
        t
    }

    /// The row stored under the slot, if any.
    pub fn find_slot(&self, slot: i64) -> (r: Option<SlotRow>)
        ensures
            r == self.spec_lookup(slot),
    {
        let n = self.rows.len();
        let mut i: usize = 0;
        while i < n
            invariant
                n == self.rows.len(),
                i <= n,
                forall|j: int| 0 <= j < i ==> self.rows_model()[j].slot != slot,
            decreases n - i,
        {
            if self.rows[i].slot == slot {
                proof {
                    lemma_slot_lookup_first_match(self.rows_model(), i as int, slot);
                }
                return Some(self.rows[i]);
            }
            i = i + 1;
        }
        proof {
            lemma_slot_lookup_no_match(self.rows_model(), slot);
        }
        None
    }

    /// Executes one slot upsert: a later transition for the same slot
    /// overwrites the earlier one, no version check.
    pub fn upsert_slot(&mut self, event: &UpdateSlotStatus, updated_on: i64)
        requires
            old(self).wf(),
        ensures
            final(self).wf(),
            final(self).spec_lookup(event@.slot as i64) == Some(spec_slot_row(event@, updated_on)),
            forall|s: i64|
                s != event@.slot as i64 ==> final(self).spec_lookup(s) == old(self).spec_lookup(s),
    {
        let ghost old_model = self.rows_model();
        let row = SlotRow {
            slot: #[verifier::truncate] (event.slot as i64),
            parent: match event.parent {
                Some(p) => Some(#[verifier::truncate] (p as i64)),
                None => None,
            },
            status: event.status,
            updated_on,
        };
        let slot_key = row.slot;
        let n = self.rows.len();
        let mut i: usize = 0;
        while i < n
            invariant
                n == self.rows.len(),
                i <= n,
                *self == *old(self),
                old_model == self.rows_model(),
                old_model.len() == n,
                unique_slots(old_model),
                row == spec_slot_row(event@, updated_on),
                slot_key == row.slot,
                forall|j: int| 0 <= j < i ==> self.rows_model()[j].slot != slot_key,
            decreases n - i,
        {
            if self.rows[i].slot == slot_key {
                proof {
                    lemma_slot_lookup_first_match(old_model, i as int, slot_key);
                }
                self.rows.set(i, row);
                proof {
                    assert forall|s: i64|
                        seq_slot_lookup(self.rows_model(), s) == if s == old_model[i as int].slot {
                            Some(row)
                        } else {
                            seq_slot_lookup(old_model, s)
                        } by {
                        lemma_slot_lookup_update(old_model, i as int, row, s);
                    }
                    assert forall|a: int, b: int|
                        0 <= a < b < self.rows_model().len() implies self.rows_model()[a].slot
                        != self.rows_model()[b].slot by {
                        assert(old_model[a].slot != old_model[b].slot);
                    }
                }
                return ;
            }
            i = i + 1;
        }
        proof {
            assert(forall|j: int| 0 <= j < old_model.len() ==> old_model[j].slot != slot_key);
            lemma_slot_lookup_no_match(old_model, slot_key);
        }
        self.rows.push(row);
        proof {
            assert(self.rows_model() =~= old_model.push(row));
            assert forall|s: i64|
                seq_slot_lookup(self.rows_model(), s) == (match seq_slot_lookup(old_model, s) {
                    Some(found) => Some(found),
                    None => if row.slot == s {
                        Some(row)
                    } else {
                        None
                    },
                }) by {
                lemma_slot_lookup_push(old_model, row, s);
            }
            assert forall|a: int, b: int|
                0 <= a < b < self.rows_model().len() implies self.rows_model()[a].slot
                != self.rows_model()[b].slot by {
                if b < old_model.len() {
                    assert(old_model[a].slot != old_model[b].slot);
                } else {
                    assert(self.rows_model()[b] == row);
                    assert(old_model[a].slot != slot_key);
                }
            }
        }
    }
}

/// One stored `block` row.
pub struct BlockRow {
    pub block: DbBlockInfo,
    pub updated_on: i64,
}

pub struct BlockRowModel {
    pub block: BlockRecordModel,
    pub updated_on: i64,
}

impl View for BlockRow {
    type V = BlockRowModel;

    open spec fn view(&self) -> BlockRowModel {
        BlockRowModel { block: self.block@, updated_on: self.updated_on }
    }
}

/// The `block` table: append-only, no conflict handling; a block's
/// metadata is written once per slot.
pub struct BlockTable {
    rows: Vec<BlockRow>,
}

impl BlockTable {
    pub closed spec fn rows_model(&self) -> Seq<BlockRowModel> {
        self.rows@.map_values(|r: BlockRow| r@)
    }

    /// An empty table.
    pub fn new() -> (t: BlockTable)
        ensures
            t.rows_model() == Seq::<BlockRowModel>::empty(),
    {
        let t = BlockTable { rows: Vec::new() };
        proof {
            assert(t.rows_model() =~= Seq::<BlockRowModel>::empty());
        }
        t
    }

    /// Appends one block row.
    pub fn insert_block(&mut self, rec: DbBlockInfo, updated_on: i64)
        ensures
            final(self).rows_model() == old(self).rows_model().push(
                BlockRowModel { block: rec@, updated_on },
            ),
    {
        let ghost old_model = self.rows_model();
        let row = BlockRow { block: rec, updated_on };
        let ghost row_model = row@;
        self.rows.push(row);
        proof {
            assert(self.rows_model() =~= old_model.push(row_model));
        }
    }

    /// The number of stored rows.
    pub fn len(&self) -> (n: usize)
        ensures
            n == self.rows_model().len(),
    {
        self.rows.len()
    }

    /// One stored row, by position.
    pub fn get(&self, i: usize) -> (r: &BlockRow)
        requires
            i < self.rows_model().len(),
        ensures
            r@ == self.rows_model()[i as int],
    {
        &self.rows[i]
    }
}

} // verus!
