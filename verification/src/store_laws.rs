//! What holds of the store across calls: the outbox records every mutation in
//! call order, storing a batch twice changes nothing more, and the trash and
//! the primary listing never overlap.

use vstd::prelude::*;
use crate::model::{
    active_pred, folder_ids, folder_payload, folder_position, item_ids, item_payload,
    item_position, lemma_position, trashed_pred, upsert_folder, upsert_folders, upsert_item,
    upsert_items, StoreState,
};
use crate::records::{FolderView, SyncQueueItemView, VaultItemView};

verus! {

/// The last record of `batch` that has this id, if any has.
pub open spec fn last_item_with_id(batch: Seq<VaultItemView>, id: Seq<char>) -> Option<
    VaultItemView,
>
    decreases batch.len(),
{
    if batch.len() == 0 {
        None
    } else if batch.last().id == id {
        Some(batch.last())
    } else {
        last_item_with_id(batch.drop_last(), id)
    }
}

/// Storing one record keeps ids unique: the list of ids stays as it is where
/// the id was there, and grows by the new id at its end where it was not.
pub proof fn lemma_upsert_item_ids(items: Seq<VaultItemView>, item: VaultItemView)
    requires
        item_ids(items).no_duplicates(),
    ensures
        item_ids(upsert_item(items, item)).no_duplicates(),
        item_position(items, item.id) < items.len() ==> item_ids(upsert_item(items, item))
            == item_ids(items),
        item_position(items, item.id) >= items.len() ==> item_ids(upsert_item(items, item))
            == item_ids(items).push(item.id),
{
    let p = item_position(items, item.id);
    lemma_position(item_ids(items), item.id);
    if p < items.len() {
        assert(item_ids(items.update(p, item)) =~= item_ids(items));
    } else {
        assert(item_ids(items.push(item)) =~= item_ids(items).push(item.id));
    }
}

/// A batch whose ids all have rows replaces rows in place: every row becomes
/// the last record of the batch with its id, or stays.
proof fn lemma_upsert_items_in_place(items: Seq<VaultItemView>, batch: Seq<VaultItemView>)
    requires
        item_ids(items).no_duplicates(),
        forall|k: int|
            0 <= k < batch.len() ==> item_position(items, (#[trigger] batch[k]).id)
                < items.len(),
    ensures
        item_ids(upsert_items(items, batch)) == item_ids(items),
        forall|p: int|
            0 <= p < items.len() ==> (#[trigger] upsert_items(items, batch)[p]) == (
            match last_item_with_id(batch, items[p].id) {
                Some(r) => r,
                None => items[p],
            }),
    decreases batch.len(),
{
    if batch.len() > 0 {
        let front = batch.drop_last();
        let last = batch.last();
        assert forall|k: int| 0 <= k < front.len() implies item_position(
            items,
            (#[trigger] front[k]).id,
        ) < items.len() by {
            assert(front[k] == batch[k]);
        }
        lemma_upsert_items_in_place(items, front);
        let mid = upsert_items(items, front);
        assert(batch[batch.len() - 1] == last);
        let q = item_position(items, last.id);
        lemma_position(item_ids(items), last.id);
        lemma_upsert_item_ids(mid, last);
        let end = upsert_items(items, batch);
        assert(end == mid.update(q, last));
        assert(item_ids(end) =~= item_ids(items));
        assert(mid.len() == item_ids(mid).len());
        assert(items.len() == item_ids(items).len());
        assert forall|p: int| 0 <= p < items.len() implies (#[trigger] end[p]) == (
        match last_item_with_id(batch, items[p].id) {
            Some(r) => r,
            None => items[p],
        }) by {
            if p != q {
                assert(item_ids(items)[p] != item_ids(items)[q]);
                assert(end[p] == mid[p]);
            }
        }
    }
}

/// After a batch was stored, ids are still unique, every id of the batch has
/// a row, and a row whose id is in the batch is the last record with that id.
proof fn lemma_upsert_items_result(items: Seq<VaultItemView>, batch: Seq<VaultItemView>)
    requires
        item_ids(items).no_duplicates(),
    ensures
        item_ids(upsert_items(items, batch)).no_duplicates(),
        forall|k: int|
            0 <= k < batch.len() ==> item_position(
                upsert_items(items, batch),
                (#[trigger] batch[k]).id,
            ) < upsert_items(items, batch).len(),
        forall|p: int|
            0 <= p < upsert_items(items, batch).len() ==> (match last_item_with_id(
                batch,
                (#[trigger] upsert_items(items, batch)[p]).id,
            ) {
                Some(r) => upsert_items(items, batch)[p] == r,
                None => true,
            }),
    decreases batch.len(),
{
    if batch.len() > 0 {
        let front = batch.drop_last();
        let last = batch.last();
        lemma_upsert_items_result(items, front);
        let mid = upsert_items(items, front);
        let end = upsert_items(items, batch);
        let q = item_position(mid, last.id);
        lemma_position(item_ids(mid), last.id);
        lemma_upsert_item_ids(mid, last);
        assert(mid.len() == item_ids(mid).len());
        assert(end.len() == item_ids(end).len());
        assert forall|k: int| 0 <= k < batch.len() implies item_position(
            end,
            (#[trigger] batch[k]).id,
        ) < end.len() by {
            lemma_position(item_ids(end), batch[k].id);
            if k < front.len() {
                assert(front[k] == batch[k]);
                let old_at = item_position(mid, front[k].id);
                lemma_position(item_ids(mid), front[k].id);
                assert(item_ids(end)[old_at] == item_ids(mid)[old_at]);
                if item_position(end, batch[k].id) >= end.len() {
                    assert(item_ids(end)[old_at] != batch[k].id);
                }
            } else {
                let at = if q < mid.len() {
                    q
                } else {
                    mid.len() as int
                };
                assert(item_ids(end)[at] == last.id);
                if item_position(end, batch[k].id) >= end.len() {
                    assert(item_ids(end)[at] != batch[k].id);
                }
            }
        }
        assert forall|p: int| 0 <= p < end.len() implies (match last_item_with_id(
            batch,
            (#[trigger] end[p]).id,
        ) {
            Some(r) => end[p] == r,
            None => true,
        }) by {
            if q < mid.len() {
                if p != q {
                    assert(end[p] == mid[p]);
                    assert(item_ids(mid)[p] != item_ids(mid)[q]);
                }
            } else {
                if p < mid.len() {
                    assert(end[p] == mid[p]);
                    assert(item_ids(mid)[p] != last.id);
                }
            }
        }
    }
}

/// Storing the same batch of records twice leaves the store as storing it
/// once does.
pub proof fn lemma_bulk_upsert_items_idempotent(s: StoreState, batch: Seq<VaultItemView>)
    requires
        s.wf(),
    ensures
        s.bulk_upsert_items(batch).wf(),
        s.bulk_upsert_items(batch).bulk_upsert_items(batch) == s.bulk_upsert_items(batch),
{
    let once = upsert_items(s.items, batch);
    lemma_upsert_items_result(s.items, batch);
    lemma_upsert_items_in_place(once, batch);
    let twice = upsert_items(once, batch);
    assert(once.len() == item_ids(once).len());
    assert(twice.len() == item_ids(twice).len());
    assert(twice =~= once);
}

/// The last folder of `batch` that has this id, if any has.
pub open spec fn last_folder_with_id(batch: Seq<FolderView>, id: Seq<char>) -> Option<
    FolderView,
>
    decreases batch.len(),
{
    if batch.len() == 0 {
        None
    } else if batch.last().id == id {
        Some(batch.last())
    } else {
        last_folder_with_id(batch.drop_last(), id)
    }
}

/// Storing one folder keeps ids unique: the list of ids stays as it is where
/// the id was there, and grows by the new id at its end where it was not.
pub proof fn lemma_upsert_folder_ids(folders: Seq<FolderView>, folder: FolderView)
    requires
        folder_ids(folders).no_duplicates(),
    ensures
        folder_ids(upsert_folder(folders, folder)).no_duplicates(),
        folder_position(folders, folder.id) < folders.len() ==> folder_ids(upsert_folder(folders, folder))
            == folder_ids(folders),
        folder_position(folders, folder.id) >= folders.len() ==> folder_ids(upsert_folder(folders, folder))
            == folder_ids(folders).push(folder.id),
{
    let p = folder_position(folders, folder.id);
    lemma_position(folder_ids(folders), folder.id);
    if p < folders.len() {
        assert(folder_ids(folders.update(p, folder)) =~= folder_ids(folders));
    } else {
        assert(folder_ids(folders.push(folder)) =~= folder_ids(folders).push(folder.id));
    }
}

/// A batch whose ids all have rows replaces rows in place: every row becomes
/// the last folder of the batch with its id, or stays.
proof fn lemma_upsert_folders_in_place(folders: Seq<FolderView>, batch: Seq<FolderView>)
    requires
        folder_ids(folders).no_duplicates(),
        forall|k: int|
            0 <= k < batch.len() ==> folder_position(folders, (#[trigger] batch[k]).id)
                < folders.len(),
    ensures
        folder_ids(upsert_folders(folders, batch)) == folder_ids(folders),
        forall|p: int|
            0 <= p < folders.len() ==> (#[trigger] upsert_folders(folders, batch)[p]) == (
            match last_folder_with_id(batch, folders[p].id) {
                Some(r) => r,
                None => folders[p],
            }),
    decreases batch.len(),
{
    if batch.len() > 0 {
        let front = batch.drop_last();
        let last = batch.last();
        assert forall|k: int| 0 <= k < front.len() implies folder_position(
            folders,
            (#[trigger] front[k]).id,
        ) < folders.len() by {
            assert(front[k] == batch[k]);
        }
        lemma_upsert_folders_in_place(folders, front);
        let mid = upsert_folders(folders, front);
        assert(batch[batch.len() - 1] == last);
        let q = folder_position(folders, last.id);
        lemma_position(folder_ids(folders), last.id);
        lemma_upsert_folder_ids(mid, last);
        let end = upsert_folders(folders, batch);
        assert(end == mid.update(q, last));
        assert(folder_ids(end) =~= folder_ids(folders));
        assert(mid.len() == folder_ids(mid).len());
        assert(folders.len() == folder_ids(folders).len());
        assert forall|p: int| 0 <= p < folders.len() implies (#[trigger] end[p]) == (
        match last_folder_with_id(batch, folders[p].id) {
            Some(r) => r,
            None => folders[p],
        }) by {
            if p != q {
                assert(folder_ids(folders)[p] != folder_ids(folders)[q]);
                assert(end[p] == mid[p]);
            }
        }
    }
}

/// After a batch was stored, ids are still unique, every id of the batch has
/// a row, and a row whose id is in the batch is the last folder with that id.
proof fn lemma_upsert_folders_result(folders: Seq<FolderView>, batch: Seq<FolderView>)
    requires
        folder_ids(folders).no_duplicates(),
    ensures
        folder_ids(upsert_folders(folders, batch)).no_duplicates(),
        forall|k: int|
            0 <= k < batch.len() ==> folder_position(
                upsert_folders(folders, batch),
                (#[trigger] batch[k]).id,
            ) < upsert_folders(folders, batch).len(),
        forall|p: int|
            0 <= p < upsert_folders(folders, batch).len() ==> (match last_folder_with_id(
                batch,
                (#[trigger] upsert_folders(folders, batch)[p]).id,
            ) {
                Some(r) => upsert_folders(folders, batch)[p] == r,
                None => true,
            }),
    decreases batch.len(),
{
    if batch.len() > 0 {
        let front = batch.drop_last();
        let last = batch.last();
        lemma_upsert_folders_result(folders, front);
        let mid = upsert_folders(folders, front);
        let end = upsert_folders(folders, batch);
        let q = folder_position(mid, last.id);
        lemma_position(folder_ids(mid), last.id);
        lemma_upsert_folder_ids(mid, last);
        assert(mid.len() == folder_ids(mid).len());
        assert(end.len() == folder_ids(end).len());
        assert forall|k: int| 0 <= k < batch.len() implies folder_position(
            end,
            (#[trigger] batch[k]).id,
        ) < end.len() by {
            lemma_position(folder_ids(end), batch[k].id);
            if k < front.len() {
                assert(front[k] == batch[k]);
                let old_at = folder_position(mid, front[k].id);
                lemma_position(folder_ids(mid), front[k].id);
                assert(folder_ids(end)[old_at] == folder_ids(mid)[old_at]);
                if folder_position(end, batch[k].id) >= end.len() {
                    assert(folder_ids(end)[old_at] != batch[k].id);
                }
            } else {
                let at = if q < mid.len() {
                    q
                } else {
                    mid.len() as int
                };
                assert(folder_ids(end)[at] == last.id);
                if folder_position(end, batch[k].id) >= end.len() {
                    assert(folder_ids(end)[at] != batch[k].id);
                }
            }
        }
        assert forall|p: int| 0 <= p < end.len() implies (match last_folder_with_id(
            batch,
            (#[trigger] end[p]).id,
        ) {
            Some(r) => end[p] == r,
            None => true,
        }) by {
            if q < mid.len() {
                if p != q {
                    assert(end[p] == mid[p]);
                    assert(folder_ids(mid)[p] != folder_ids(mid)[q]);
                }
            } else {
                if p < mid.len() {
                    assert(end[p] == mid[p]);
                    assert(folder_ids(mid)[p] != last.id);
                }
            }
        }
    }
}

/// Storing the same batch of folders twice leaves the store as storing it
/// once does.
pub proof fn lemma_bulk_upsert_folders_idempotent(s: StoreState, batch: Seq<FolderView>)
    requires
        s.wf(),
    ensures
        s.bulk_upsert_folders(batch).wf(),
        s.bulk_upsert_folders(batch).bulk_upsert_folders(batch) == s.bulk_upsert_folders(batch),
{
    let once = upsert_folders(s.folders, batch);
    lemma_upsert_folders_result(s.folders, batch);
    lemma_upsert_folders_in_place(once, batch);
    let twice = upsert_folders(once, batch);
    assert(once.len() == folder_ids(once).len());
    assert(twice.len() == folder_ids(twice).len());
    assert(twice =~= once);
}


/// One mutating call on the store.
pub enum Mutation {
    InsertItem(VaultItemView),
    UpdateItem(VaultItemView),
    SoftDelete(Seq<char>),
    Restore(Seq<char>),
    Purge(Seq<char>),
    InsertFolder(FolderView),
    UpdateFolder(FolderView),
    DeleteFolder(Seq<char>),
}

/// A mutating call together with the time at which it was made.
pub struct Call {
    pub what: Mutation,
    pub now: Seq<char>,
}

impl Call {
    /// The store after the call.
    pub open spec fn apply(self, s: StoreState) -> StoreState {
        match self.what {
            Mutation::InsertItem(item) => s.insert_item(item, self.now),
            Mutation::UpdateItem(item) => s.update_item(item, self.now),
            Mutation::SoftDelete(id) => s.soft_delete_item(id, self.now),
            Mutation::Restore(id) => s.restore_item(id, self.now),
            Mutation::Purge(id) => s.purge_item(id, self.now),
            Mutation::InsertFolder(folder) => s.insert_folder(folder, self.now),
            Mutation::UpdateFolder(folder) => s.update_folder(folder, self.now),
            Mutation::DeleteFolder(id) => s.delete_folder(id, self.now),
        }
    }

    /// The outbox entry that the call leaves, once it is numbered.
    pub open spec fn entry(self, sequence: int) -> SyncQueueItemView {
        let (operation, table_name, record_id, payload) = match self.what {
            Mutation::InsertItem(item) => ("create"@, "vault_items"@, item.id, item_payload(item)),
            Mutation::UpdateItem(item) => ("update"@, "vault_items"@, item.id, item_payload(item)),
            Mutation::SoftDelete(id) => ("update"@, "vault_items"@, id, None),
            Mutation::Restore(id) => ("update"@, "vault_items"@, id, None),
            Mutation::Purge(id) => ("delete"@, "vault_items"@, id, None),
            Mutation::InsertFolder(folder) => (
                "create"@,
                "folders"@,
                folder.id,
                folder_payload(folder),
            ),
            Mutation::UpdateFolder(folder) => (
                "update"@,
                "folders"@,
                folder.id,
                folder_payload(folder),
            ),
            Mutation::DeleteFolder(id) => ("delete"@, "folders"@, id, None),
        };
        SyncQueueItemView {
            id: sequence,
            operation,
            table_name,
            record_id,
            payload,
            created_at: self.now,
        }
    }
}

/// The store after a series of calls, first to last.
pub open spec fn apply_calls(s: StoreState, calls: Seq<Call>) -> StoreState
    decreases calls.len(),
{
    if calls.len() == 0 {
        s
    } else {
        calls.last().apply(apply_calls(s, calls.drop_last()))
    }
}

/// Any one mutating call, made while the outbox can still number an entry,
/// keeps the store valid and adds exactly its own entry at the end of the
/// outbox.
pub proof fn lemma_call_adds_one_entry(s: StoreState, c: Call)
    requires
        s.wf(),
        s.can_enqueue(),
    ensures
        c.apply(s).wf(),
        c.apply(s).queue == s.queue.push(c.entry(s.last_sequence + 1)),
        c.apply(s).last_sequence == s.last_sequence + 1,
{
    match c.what {
        Mutation::InsertItem(item) => {
            lemma_upsert_item_ids(s.items, item);
        },
        Mutation::UpdateItem(item) => {
            lemma_upsert_item_ids(s.items, item);
        },
        Mutation::SoftDelete(id) => {
            let p = item_position(s.items, id);
            lemma_position(item_ids(s.items), id);
            if p < s.items.len() {
                assert(item_ids(c.apply(s).items) =~= item_ids(s.items));
            }
        },
        Mutation::Restore(id) => {
            let p = item_position(s.items, id);
            lemma_position(item_ids(s.items), id);
            if p < s.items.len() {
                assert(item_ids(c.apply(s).items) =~= item_ids(s.items));
            }
        },
        Mutation::Purge(id) => {
            let p = item_position(s.items, id);
            lemma_position(item_ids(s.items), id);
            if p < s.items.len() {
                assert(item_ids(c.apply(s).items) =~= item_ids(s.items).remove(p));
            }
        },
        Mutation::InsertFolder(folder) => {
            lemma_upsert_folder_ids(s.folders, folder);
        },
        Mutation::UpdateFolder(folder) => {
            lemma_upsert_folder_ids(s.folders, folder);
        },
        Mutation::DeleteFolder(id) => {
            let p = folder_position(s.folders, id);
            lemma_position(folder_ids(s.folders), id);
            if p < s.folders.len() {
                assert(folder_ids(c.apply(s).folders) =~= folder_ids(s.folders).remove(p));
            }
            assert(item_ids(c.apply(s).items) =~= item_ids(s.items));
        },
    }
}

/// The outbox does not coalesce: after any series of creating, editing and
/// deleting calls it has grown by one entry per call, the old entries are
/// untouched, and the new ones stand in call order, each describing its call.
pub proof fn lemma_outbox_records_every_call(s: StoreState, calls: Seq<Call>)
    requires
        s.wf(),
        s.last_sequence + calls.len() <= i64::MAX,
    ensures
        apply_calls(s, calls).wf(),
        apply_calls(s, calls).last_sequence == s.last_sequence + calls.len(),
        apply_calls(s, calls).queue.len() == s.queue.len() + calls.len(),
        forall|k: int|
            0 <= k < s.queue.len() ==> (#[trigger] apply_calls(s, calls).queue[k]) == s.queue[k],
        forall|k: int|
            0 <= k < calls.len() ==> (#[trigger] apply_calls(s, calls).queue[s.queue.len() + k])
                == calls[k].entry(s.last_sequence + 1 + k),
    decreases calls.len(),
{
    if calls.len() > 0 {
        let front = calls.drop_last();
        lemma_outbox_records_every_call(s, front);
        let mid = apply_calls(s, front);
        lemma_call_adds_one_entry(mid, calls.last());
        let end = apply_calls(s, calls);
        assert forall|k: int| 0 <= k < calls.len() implies (#[trigger] end.queue[s.queue.len()
            + k]) == calls[k].entry(s.last_sequence + 1 + k) by {
            if k < front.len() {
                assert(front[k] == calls[k]);
                assert(end.queue[s.queue.len() + k] == mid.queue[s.queue.len() + k]);
            }
        }
    }
}

/// A record in the trash is not among the active records, whatever else the
/// store holds.
pub proof fn lemma_trashed_never_active(s: StoreState, id: Seq<char>)
    requires
        s.wf(),
        s.item(id) matches Some(row) && row.deleted_at is Some,
    ensures
        forall|k: int|
            0 <= k < s.active_items().len() ==> (#[trigger] s.active_items()[k]).id != id,
        forall|k: int|
            0 <= k < s.active_items().len() ==> (#[trigger] s.active_items()[k]).deleted_at
                is None,
{
    let active = s.active_items();
    lemma_position(item_ids(s.items), id);
    let p = item_position(s.items, id);
    assert forall|k: int| 0 <= k < active.len() implies (#[trigger] active[k]).id != id
        && active[k].deleted_at is None by {
        s.items.lemma_filter_pred(active_pred(), k);
        assert(active.contains(active[k]));
        s.items.lemma_filter_contains_rev(active_pred(), active[k]);
        let at = choose|at: int| 0 <= at < s.items.len() && s.items[at] == active[k];
        if active[k].id == id {
            assert(item_ids(s.items)[at] == id);
            assert(item_ids(s.items)[p] == id);
            assert(at == p);
        }
    }
}

/// Restoring a record that the store holds clears its tombstone and makes it
/// one of the active records again.
pub proof fn lemma_restore_reappears(s: StoreState, id: Seq<char>, now: Seq<char>)
    requires
        s.wf(),
        s.item(id) is Some,
    ensures
        s.restore_item(id, now).item(id) matches Some(row) && row.deleted_at is None
            && s.restore_item(id, now).active_items().contains(row),
{
    let t = s.restore_item(id, now);
    let p = item_position(s.items, id);
    lemma_position(item_ids(s.items), id);
    assert(item_ids(t.items) =~= item_ids(s.items));
    t.items.lemma_filter_contains(active_pred(), p);
}

/// Purging a record removes its row: it is neither in the trash nor anywhere
/// else in the store afterwards.
pub proof fn lemma_purge_disappears(s: StoreState, id: Seq<char>, now: Seq<char>)
    requires
        s.wf(),
    ensures
        s.purge_item(id, now).item(id) is None,
        forall|k: int|
            0 <= k < s.purge_item(id, now).trashed_items().len() ==> (#[trigger] s.purge_item(
                id,
                now,
            ).trashed_items()[k]).id != id,
{
    let t = s.purge_item(id, now);
    let p = item_position(s.items, id);
    lemma_position(item_ids(s.items), id);
    assert forall|j: int| 0 <= j < t.items.len() implies item_ids(t.items)[j] != id by {
        if p < s.items.len() {
            if j < p {
                assert(item_ids(t.items)[j] == item_ids(s.items)[j]);
            } else {
                assert(item_ids(t.items)[j] == item_ids(s.items)[j + 1]);
                assert(item_ids(s.items)[p] == id);
            }
        } else {
            assert(item_ids(t.items)[j] == item_ids(s.items)[j]);
        }
    }
    lemma_position(item_ids(t.items), id);
    let trash = t.trashed_items();
    assert forall|k: int| 0 <= k < trash.len() implies (#[trigger] trash[k]).id != id by {
        assert(trash.contains(trash[k]));
        t.items.lemma_filter_contains_rev(trashed_pred(), trash[k]);
        let at = choose|at: int| 0 <= at < t.items.len() && t.items[at] == trash[k];
        assert(item_ids(t.items)[at] != id);
    }
}

/// A record that the store does not hold stays away until it is stored again:
/// no deletion, restore or purge, and nothing stored under another id, brings
/// it back.
pub proof fn lemma_absent_stays_absent(s: StoreState, c: Call, id: Seq<char>)
    requires
        s.wf(),
        s.item(id) is None,
        !(c.what matches Mutation::InsertItem(item) && item.id == id),
        !(c.what matches Mutation::UpdateItem(item) && item.id == id),
    ensures
        c.apply(s).item(id) is None,
{
    let t = c.apply(s);
    lemma_position(item_ids(s.items), id);
    lemma_position(item_ids(t.items), id);
    let at = item_position(t.items, id);
    if at < t.items.len() {
        assert(item_ids(t.items)[at] == id);
        match c.what {
            Mutation::InsertItem(item) => {
                lemma_upsert_item_ids(s.items, item);
                if item_position(s.items, item.id) < s.items.len() {
                    assert(item_ids(s.items)[at] == id);
                } else {
                    if at < s.items.len() {
                        assert(item_ids(s.items)[at] == id);
                    }
                }
            },
            Mutation::UpdateItem(item) => {
                lemma_upsert_item_ids(s.items, item);
                if item_position(s.items, item.id) < s.items.len() {
                    assert(item_ids(s.items)[at] == id);
                } else {
                    if at < s.items.len() {
                        assert(item_ids(s.items)[at] == id);
                    }
                }
            },
            Mutation::SoftDelete(other) => {
                lemma_position(item_ids(s.items), other);
                assert(item_ids(t.items) =~= item_ids(s.items));
                assert(item_ids(s.items)[at] == id);
            },
            Mutation::Restore(other) => {
                lemma_position(item_ids(s.items), other);
                assert(item_ids(t.items) =~= item_ids(s.items));
                assert(item_ids(s.items)[at] == id);
            },
            Mutation::Purge(other) => {
                let p = item_position(s.items, other);
                lemma_position(item_ids(s.items), other);
                if p < s.items.len() {
                    if at < p {
                        assert(item_ids(s.items)[at] == id);
                    } else {
                        assert(item_ids(s.items)[at + 1] == id);
                    }
                } else {
                    assert(item_ids(s.items)[at] == id);
                }
            },
            Mutation::InsertFolder(folder) => {
                assert(item_ids(s.items)[at] == id);
            },
            Mutation::UpdateFolder(folder) => {
                assert(item_ids(s.items)[at] == id);
            },
            Mutation::DeleteFolder(other) => {
                assert(item_ids(t.items) =~= item_ids(s.items));
                assert(item_ids(s.items)[at] == id);
            },
        }
    }
}

/// Storing a batch of records keeps ids unique.
pub proof fn lemma_upsert_items_keep_ids_unique(items: Seq<VaultItemView>, batch: Seq<VaultItemView>)
    requires
        item_ids(items).no_duplicates(),
    ensures
        item_ids(upsert_items(items, batch)).no_duplicates(),
{
    lemma_upsert_items_result(items, batch);
}

/// Storing a batch of folders keeps ids unique.
pub proof fn lemma_upsert_folders_keep_ids_unique(folders: Seq<FolderView>, batch: Seq<FolderView>)
    requires
        folder_ids(folders).no_duplicates(),
    ensures
        folder_ids(upsert_folders(folders, batch)).no_duplicates(),
{
    lemma_upsert_folders_result(folders, batch);
}

} // verus!
