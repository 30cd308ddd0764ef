//! The local store: vault records, folders, the outbox of pending mutations,
//! the session row and the settings row.
//!
//! Every mutating call either takes full effect or, where it fails, leaves the
//! store exactly as it was.

use vstd::prelude::*;
use vstd::seq_lib::{to_multiset_build, to_multiset_insert};
use vstd::string::*;
use crate::error::{AppError, AppErrorView};
use crate::json::{close_object, push_bool_member, push_opt_member, push_text_member};
use crate::model::{
    active_pred, deleted_key, detached, in_order, ranked, trashed_pred, unsynced_pred, entry_ids, entry_position, folder_ids, folder_payload, folder_position, item_ids, item_payload,
    item_position, lemma_position, lemma_position_is, upsert_folder, upsert_folders, upsert_item,
    upsert_items, StoreState,
};
use crate::ranking::{insert_ranked, key_views};
use crate::records::{
    entry_views, folder_views, item_views, session_view, AppSettings, Folder, SyncQueueItem,
    SyncQueueItemView, UserSession, VaultItem, VaultItemView,
};
use crate::text::{
    clone_opt, opt_text, opt_text_eq, text_eq,
    text_le, text_less,
};

verus! {

/// The message of the failure that a full outbox numbering gives.
pub open spec fn sequence_exhausted() -> AppErrorView {
    AppErrorView::Database("sync queue sequence exhausted"@)
}

/// The local store.
pub struct Database {
    items: Vec<VaultItem>,
    folders: Vec<Folder>,
    queue: Vec<SyncQueueItem>,
    last_sequence: i64,
    session: Option<UserSession>,
    settings: AppSettings,
}

impl View for Database {
    type V = StoreState;

    closed spec fn view(&self) -> StoreState {
        StoreState {
            items: item_views(self.items@),
            folders: folder_views(self.folders@),
            queue: entry_views(self.queue@),
            last_sequence: self.last_sequence as int,
            session: session_view(self.session),
            settings: self.settings@,
        }
    }
}

/// The position of the record `id` in `items`, or their number.
fn find_item(items: &Vec<VaultItem>, id: &str) -> (p: usize)
    ensures
        p == item_position(item_views(items@), id@),
        p <= items.len(),
{
    let mut i: usize = 0;
    while i < items.len()
        invariant
            i <= items.len(),
            forall|j: int| 0 <= j < i ==> item_ids(item_views(items@))[j] != id@,
        decreases items.len() - i,
    {
        if text_eq(items[i].id.as_str(), id) {
            proof {
                lemma_position_is(item_ids(item_views(items@)), id@, i as int);
            }
            return i;
        }
        i = i + 1;
    }
    proof {
        lemma_position_is(item_ids(item_views(items@)), id@, i as int);
    }
    i
}

/// The position of the folder `id` in `folders`, or their number.
fn find_folder(folders: &Vec<Folder>, id: &str) -> (p: usize)
    ensures
        p == folder_position(folder_views(folders@), id@),
        p <= folders.len(),
{
    let mut i: usize = 0;
    while i < folders.len()
        invariant
            i <= folders.len(),
            forall|j: int| 0 <= j < i ==> folder_ids(folder_views(folders@))[j] != id@,
        decreases folders.len() - i,
    {
        if text_eq(folders[i].id.as_str(), id) {
            proof {
                lemma_position_is(folder_ids(folder_views(folders@)), id@, i as int);
            }
            return i;
        }
        i = i + 1;
    }
    proof {
        lemma_position_is(folder_ids(folder_views(folders@)), id@, i as int);
    }
    i
}

/// The position of the entry numbered `id` in the outbox, or its length.
fn find_entry(queue: &Vec<SyncQueueItem>, id: i64) -> (p: usize)
    ensures
        p == entry_position(entry_views(queue@), id as int),
        p <= queue.len(),
{
    let mut i: usize = 0;
    while i < queue.len()
        invariant
            i <= queue.len(),
            forall|j: int| 0 <= j < i ==> entry_ids(entry_views(queue@))[j] != id as int,
        decreases queue.len() - i,
    {
        if queue[i].id == id {
            proof {
                lemma_position_is(entry_ids(entry_views(queue@)), id as int, i as int);
            }
            return i;
        }
        i = i + 1;
    }
    proof {
        lemma_position_is(entry_ids(entry_views(queue@)), id as int, i as int);
    }
    i
}

/// Writes the snapshot of a record.
pub fn encode_item(item: &VaultItem) -> (r: Option<String>)
    ensures
        opt_text(r) == item_payload(item@),
{
    let a = push_text_member(Some(String::from_str("")), "{\"id\":", item.id.as_str());
    let b = push_text_member(a, ",\"encryptedData\":", item.encrypted_data.as_str());
    let c = push_text_member(b, ",\"itemType\":", item.item_type.as_str());
    let d = push_opt_member(c, ",\"folderId\":", &item.folder_id);
    let e = push_bool_member(d, ",\"isFavorite\":", item.is_favorite);
    let f = push_opt_member(e, ",\"deletedAt\":", &item.deleted_at);
    let g = push_opt_member(f, ",\"syncedAt\":", &item.synced_at);
    let h = push_text_member(g, ",\"localUpdatedAt\":", item.local_updated_at.as_str());
    let i = push_opt_member(h, ",\"serverUpdatedAt\":", &item.server_updated_at);
    close_object(i)
}

/// Writes the snapshot of a folder.
pub fn encode_folder(folder: &Folder) -> (r: Option<String>)
    ensures
        opt_text(r) == folder_payload(folder@),
{
    let a = push_text_member(Some(String::from_str("")), "{\"id\":", folder.id.as_str());
    let b = push_text_member(a, ",\"name\":", folder.name.as_str());
    let c = push_opt_member(b, ",\"syncedAt\":", &folder.synced_at);
    let d = push_text_member(c, ",\"localUpdatedAt\":", folder.local_updated_at.as_str());
    close_object(d)
}

// Construction, single rows and the numbering of the outbox.
impl Database {
    /// What holds of the store between any two calls.
    pub open spec fn wf(&self) -> bool {
        self@.wf()
    }

    /// An empty store with the settings of a fresh installation.
    pub fn new() -> (db: Database)
        ensures
            db.wf(),
            db@ == StoreState::empty(),
    {
        let db = Database {
            items: Vec::new(),
            folders: Vec::new(),
            queue: Vec::new(),
            last_sequence: 0,
            session: None,
            settings: AppSettings::default(),
        };
        proof {
            assert(db@.items =~= Seq::empty());
            assert(db@.folders =~= Seq::empty());
            assert(db@.queue =~= Seq::empty());
        }
        db
    }

    /// The record with this id, in the trash or not.
    pub fn get_vault_item(&self, id: &str) -> (r: Result<Option<VaultItem>, AppError>)
        ensures
            r matches Ok(found) && match found {
                Some(item) => self@.item(id@) == Some(item@),
                None => self@.item(id@) is None,
            },
    {
        let p = find_item(&self.items, id);
        if p < self.items.len() {
            Ok(Some(self.items[p].clone()))
        } else {
            Ok(None)
        }
    }

    /// The folder with this id.
    pub fn get_folder(&self, id: &str) -> (r: Option<Folder>)
        ensures
            match r {
                Some(folder) => self@.folder(id@) == Some(folder@),
                None => self@.folder(id@) is None,
            },
    {
        let p = find_folder(&self.folders, id);
        if p < self.folders.len() {
            Some(self.folders[p].clone())
        } else {
            None
        }
    }

    /// Adds an entry to the outbox: the one place where sequence numbers are
    /// given out.
    fn add_to_sync_queue_internal(
        &mut self,
        operation: &str,
        table_name: &str,
        record_id: &str,
        payload: Option<String>,
        now: &str,
    )
        requires
            old(self).wf(),
            old(self)@.can_enqueue(),
        ensures
            final(self).wf(),
            final(self)@ == old(self)@.enqueue(
                operation@,
                table_name@,
                record_id@,
                opt_text(payload),
                now@,
            ),
    {
        let next: i64 = self.last_sequence + 1;
        let entry = SyncQueueItem {
            id: next,
            operation: operation.to_owned(),
            table_name: table_name.to_owned(),
            record_id: record_id.to_owned(),
            payload,
            created_at: now.to_owned(),
        };
        self.queue.push(entry);
        self.last_sequence = next;
        proof {
            assert(final(self)@.queue =~= old(self)@.queue.push(entry@));
        }
    }

    /// Stores a record, replacing any row with the same id, and queues a
    /// `create` entry that carries the record's snapshot.
    pub fn insert_vault_item(&mut self, item: &VaultItem, now: &str) -> (r: Result<(), AppError>)
        requires
            old(self).wf(),
        ensures
            final(self).wf(),
            match r {
                Ok(_) => old(self)@.can_enqueue() && final(self)@ == old(self)@.insert_item(
                    item@,
                    now@,
                ),
                Err(e) => !old(self)@.can_enqueue() && final(self)@ == old(self)@ && e@
                    == sequence_exhausted(),
            },
    {
        if self.last_sequence == i64::MAX {
            return Err(AppError::Database(String::from_str("sync queue sequence exhausted")));
        }
        self.upsert_vault_item(item);
        let payload = encode_item(item);
        self.add_to_sync_queue_internal("create", "vault_items", item.id.as_str(), payload, now);
        Ok(())
    }
}

/// The failure that a full outbox numbering gives.
fn exhausted() -> (e: AppError)
    ensures
        e@ == sequence_exhausted(),
{
    AppError::Database(String::from_str("sync queue sequence exhausted"))
}

// Mutations of records and folders, and the outbox.
impl Database {
    /// Stores an edited record, replacing the row with the same id, and
    /// queues an `update` entry that carries the record's snapshot.
    pub fn update_vault_item(&mut self, item: &VaultItem, now: &str) -> (r: Result<(), AppError>)
        requires
            old(self).wf(),
        ensures
            final(self).wf(),
            match r {
                Ok(_) => old(self)@.can_enqueue() && final(self)@ == old(self)@.update_item(
                    item@,
                    now@,
                ),
                Err(e) => !old(self)@.can_enqueue() && final(self)@ == old(self)@ && e@
                    == sequence_exhausted(),
            },
    {
        if self.last_sequence == i64::MAX {
            return Err(exhausted());
        }
        self.upsert_vault_item(item);
        let payload = encode_item(item);
        self.add_to_sync_queue_internal("update", "vault_items", item.id.as_str(), payload, now);
        Ok(())
    }

    /// Sets or clears the tombstone of the row `id`, if there is one, stamps it
    /// as edited at `now`, and queues an `update` entry without snapshot.
    fn set_tombstone(&mut self, id: &str, deleted_at: Option<String>, now: &str) -> (r: Result<
        (),
        AppError,
    >)
        requires
            old(self).wf(),
        ensures
            final(self).wf(),
            match r {
                Ok(_) => old(self)@.can_enqueue() && final(self)@ == old(self)@.mark_deleted(
                    id@,
                    opt_text(deleted_at),
                    now@,
                ),
                Err(e) => !old(self)@.can_enqueue() && final(self)@ == old(self)@ && e@
                    == sequence_exhausted(),
            },
    {
        if self.last_sequence == i64::MAX {
            return Err(exhausted());
        }
        let p = find_item(&self.items, id);
        if p < self.items.len() {
            let row = &self.items[p];
            let edited = VaultItem {
                id: row.id.clone(),
                encrypted_data: row.encrypted_data.clone(),
                item_type: row.item_type.clone(),
                folder_id: clone_opt(&row.folder_id),
                is_favorite: row.is_favorite,
                deleted_at,
                synced_at: clone_opt(&row.synced_at),
                local_updated_at: now.to_owned(),
                server_updated_at: clone_opt(&row.server_updated_at),
            };
            self.items[p] = edited;
            proof {
                let before = old(self)@.items;
                assert(self@.items =~= before.update(p as int, edited@));
                assert(item_ids(self@.items) =~= item_ids(before));
            }
        }
        self.add_to_sync_queue_internal("update", "vault_items", id, None, now);
        Ok(())
    }

    /// Moves the record to the trash: its tombstone and its time of edit both
    /// become `now`. Queues an `update` entry without snapshot.
    pub fn soft_delete_vault_item(&mut self, id: &str, now: &str) -> (r: Result<(), AppError>)
        requires
            old(self).wf(),
        ensures
            final(self).wf(),
            match r {
                Ok(_) => old(self)@.can_enqueue() && final(self)@ == old(self)@.soft_delete_item(
                    id@,
                    now@,
                ),
                Err(e) => !old(self)@.can_enqueue() && final(self)@ == old(self)@ && e@
                    == sequence_exhausted(),
            },
    {
        self.set_tombstone(id, Some(now.to_owned()), now)
    }

    /// Takes the record out of the trash: its tombstone is cleared and its time
    /// of edit becomes `now`. Queues an `update` entry without snapshot.
    pub fn restore_vault_item(&mut self, id: &str, now: &str) -> (r: Result<(), AppError>)
        requires
            old(self).wf(),
        ensures
            final(self).wf(),
            match r {
                Ok(_) => old(self)@.can_enqueue() && final(self)@ == old(self)@.restore_item(
                    id@,
                    now@,
                ),
                Err(e) => !old(self)@.can_enqueue() && final(self)@ == old(self)@ && e@
                    == sequence_exhausted(),
            },
    {
        self.set_tombstone(id, None, now)
    }

    /// Removes the row for good and queues a `delete` entry.
    pub fn permanently_delete_vault_item(&mut self, id: &str, now: &str) -> (r: Result<
        (),
        AppError,
    >)
        requires
            old(self).wf(),
        ensures
            final(self).wf(),
            match r {
                Ok(_) => old(self)@.can_enqueue() && final(self)@ == old(self)@.purge_item(
                    id@,
                    now@,
                ),
                Err(e) => !old(self)@.can_enqueue() && final(self)@ == old(self)@ && e@
                    == sequence_exhausted(),
            },
    {
        if self.last_sequence == i64::MAX {
            return Err(exhausted());
        }
        let p = find_item(&self.items, id);
        if p < self.items.len() {
            self.items.remove(p);
            proof {
                let before = old(self)@.items;
                assert(self@.items =~= before.remove(p as int));
                assert(item_ids(self@.items) =~= item_ids(before).remove(p as int));
            }
        }
        self.add_to_sync_queue_internal("delete", "vault_items", id, None, now);
        Ok(())
    }

    /// Stores a folder, replacing any row with the same id, and queues a
    /// `create` entry that carries the folder's snapshot.
    pub fn insert_folder(&mut self, folder: &Folder, now: &str) -> (r: Result<(), AppError>)
        requires
            old(self).wf(),
        ensures
            final(self).wf(),
            match r {
                Ok(_) => old(self)@.can_enqueue() && final(self)@ == old(self)@.insert_folder(
                    folder@,
                    now@,
                ),
                Err(e) => !old(self)@.can_enqueue() && final(self)@ == old(self)@ && e@
                    == sequence_exhausted(),
            },
    {
        if self.last_sequence == i64::MAX {
            return Err(exhausted());
        }
        self.upsert_folder_row(folder);
        let payload = encode_folder(folder);
        self.add_to_sync_queue_internal("create", "folders", folder.id.as_str(), payload, now);
        Ok(())
    }

    /// Stores an edited folder, replacing the row with the same id, and
    /// queues an `update` entry that carries the folder's snapshot.
    pub fn update_folder(&mut self, folder: &Folder, now: &str) -> (r: Result<(), AppError>)
        requires
            old(self).wf(),
        ensures
            final(self).wf(),
            match r {
                Ok(_) => old(self)@.can_enqueue() && final(self)@ == old(self)@.update_folder(
                    folder@,
                    now@,
                ),
                Err(e) => !old(self)@.can_enqueue() && final(self)@ == old(self)@ && e@
                    == sequence_exhausted(),
            },
    {
        if self.last_sequence == i64::MAX {
            return Err(exhausted());
        }
        self.upsert_folder_row(folder);
        let payload = encode_folder(folder);
        self.add_to_sync_queue_internal("update", "folders", folder.id.as_str(), payload, now);
        Ok(())
    }

    /// Removes the folder, clears the folder reference of every record that
    /// pointed at it, and queues a `delete` entry.
    pub fn delete_folder(&mut self, id: &str, now: &str) -> (r: Result<(), AppError>)
        requires
            old(self).wf(),
        ensures
            final(self).wf(),
            match r {
                Ok(_) => old(self)@.can_enqueue() && final(self)@ == old(self)@.delete_folder(
                    id@,
                    now@,
                ),
                Err(e) => !old(self)@.can_enqueue() && final(self)@ == old(self)@ && e@
                    == sequence_exhausted(),
            },
    {
        if self.last_sequence == i64::MAX {
            return Err(exhausted());
        }
        let mut i: usize = 0;
        while i < self.items.len()
            invariant
                i <= self.items.len(),
                self.items.len() == old(self).items.len(),
                self.folders == old(self).folders,
                self.queue == old(self).queue,
                self.last_sequence == old(self).last_sequence,
                self.session == old(self).session,
                self.settings == old(self).settings,
                forall|k: int|
                    0 <= k < i ==> (#[trigger] self.items[k])@ == detached(
                        old(self).items[k]@,
                        id@,
                    ),
                forall|k: int|
                    i <= k < self.items.len() ==> (#[trigger] self.items[k]) == old(
                        self,
                    ).items[k],
            decreases self.items.len() - i,
        {
            if opt_text_eq(&self.items[i].folder_id, id) {
                let row = &self.items[i];
                let edited = VaultItem {
                    id: row.id.clone(),
                    encrypted_data: row.encrypted_data.clone(),
                    item_type: row.item_type.clone(),
                    folder_id: None,
                    is_favorite: row.is_favorite,
                    deleted_at: clone_opt(&row.deleted_at),
                    synced_at: clone_opt(&row.synced_at),
                    local_updated_at: row.local_updated_at.clone(),
                    server_updated_at: clone_opt(&row.server_updated_at),
                };
                self.items[i] = edited;
            }
            i = i + 1;
        }
        proof {
            let before = old(self)@.items;
            assert(self@.items =~= Seq::new(before.len(), |k: int| detached(before[k], id@)));
            assert(item_ids(self@.items) =~= item_ids(before));
        }
        let p = find_folder(&self.folders, id);
        if p < self.folders.len() {
            self.folders.remove(p);
            proof {
                let before = old(self)@.folders;
                assert(self@.folders =~= before.remove(p as int));
                assert(folder_ids(self@.folders) =~= folder_ids(before).remove(p as int));
            }
        }
        self.add_to_sync_queue_internal("delete", "folders", id, None, now);
        Ok(())
    }

    /// The outbox, oldest entry first.
    pub fn get_pending_sync_items(&self) -> (r: Result<Vec<SyncQueueItem>, AppError>)
        ensures
            r matches Ok(pending) && entry_views(pending@) == self@.queue,
    {
        let mut out: Vec<SyncQueueItem> = Vec::new();
        let mut i: usize = 0;
        while i < self.queue.len()
            invariant
                i <= self.queue.len(),
                out.len() == i,
                forall|k: int| 0 <= k < i ==> (#[trigger] out[k])@ == self.queue[k]@,
            decreases self.queue.len() - i,
        {
            out.push(self.queue[i].clone());
            i = i + 1;
        }
        proof {
            assert(entry_views(out@) =~= self@.queue);
        }
        Ok(out)
    }

    /// How many entries wait in the outbox.
    pub fn pending_count(&self) -> (n: usize)
        ensures
            n == self@.queue.len(),
    {
        self.queue.len()
    }

    /// Removes the entry numbered `id` from the outbox, if it is there.
    pub fn remove_from_sync_queue(&mut self, id: i64) -> (r: Result<(), AppError>)
        requires
            old(self).wf(),
        ensures
            final(self).wf(),
            r is Ok,
            final(self)@ == old(self)@.dequeue(id as int),
    {
        let i = find_entry(&self.queue, id);
        if i < self.queue.len() {
            self.queue.remove(i);
            proof {
                assert(self@.queue =~= old(self)@.queue.remove(i as int));
            }
        }
        Ok(())
    }

    /// Empties the outbox.
    pub fn clear_sync_queue(&mut self) -> (r: Result<(), AppError>)
        requires
            old(self).wf(),
        ensures
            final(self).wf(),
            r is Ok,
            final(self)@ == old(self)@.clear_queue(),
    {
        self.queue = Vec::new();
        proof {
            assert(self@.queue =~= Seq::empty());
        }
        Ok(())
    }
}

// Acknowledgments, the session row, the settings row and batches.
impl Database {
    /// Records on the row that the server has acknowledged it at `now`; for a
    /// vault record `now` also becomes the server's time of update. A table
    /// other than `vault_items` and `folders`, or an id without a row, changes
    /// nothing.
    pub fn mark_item_synced(&mut self, table_name: &str, record_id: &str, now: &str) -> (r: Result<
        (),
        AppError,
    >)
        requires
            old(self).wf(),
        ensures
            final(self).wf(),
            r is Ok,
            final(self)@ == old(self)@.mark_synced(table_name@, record_id@, now@),
    {
        if text_eq(table_name, "vault_items") {
            let p = find_item(&self.items, record_id);
            if p < self.items.len() {
                let row = &self.items[p];
                let edited = VaultItem {
                    id: row.id.clone(),
                    encrypted_data: row.encrypted_data.clone(),
                    item_type: row.item_type.clone(),
                    folder_id: clone_opt(&row.folder_id),
                    is_favorite: row.is_favorite,
                    deleted_at: clone_opt(&row.deleted_at),
                    synced_at: Some(now.to_owned()),
                    local_updated_at: row.local_updated_at.clone(),
                    server_updated_at: Some(now.to_owned()),
                };
                self.items[p] = edited;
                proof {
                    let before = old(self)@.items;
                    assert(self@.items =~= before.update(p as int, edited@));
                    assert(item_ids(self@.items) =~= item_ids(before));
                }
            }
        } else if text_eq(table_name, "folders") {
            let p = find_folder(&self.folders, record_id);
            if p < self.folders.len() {
                let row = &self.folders[p];
                let edited = Folder {
                    id: row.id.clone(),
                    name: row.name.clone(),
                    synced_at: Some(now.to_owned()),
                    local_updated_at: row.local_updated_at.clone(),
                };
                self.folders[p] = edited;
                proof {
                    let before = old(self)@.folders;
                    assert(self@.folders =~= before.update(p as int, edited@));
                    assert(folder_ids(self@.folders) =~= folder_ids(before));
                }
            }
        }
        Ok(())
    }

    /// The session row, or `None` where nobody is logged in.
    pub fn get_session(&self) -> (r: Result<Option<UserSession>, AppError>)
        ensures
            r matches Ok(s) && session_view(s) == self@.session,
    {
        match &self.session {
            Some(s) => Ok(Some(s.clone())),
            None => Ok(None),
        }
    }

    /// Replaces the session row.
    pub fn save_session(&mut self, session: &UserSession) -> (r: Result<(), AppError>)
        requires
            old(self).wf(),
        ensures
            final(self).wf(),
            r is Ok,
            final(self)@ == old(self)@.save_session(session@),
    {
        self.session = Some(session.clone());
        Ok(())
    }

    /// Records `now` as the time of the last complete sync, where a session
    /// row exists.
    pub fn update_last_sync(&mut self, now: &str) -> (r: Result<(), AppError>)
        requires
            old(self).wf(),
        ensures
            final(self).wf(),
            r is Ok,
            final(self)@ == old(self)@.update_last_sync(now@),
    {
        let updated = match &self.session {
            Some(s) => Some(
                UserSession {
                    user_id: s.user_id.clone(),
                    email: s.email.clone(),
                    access_token: s.access_token.clone(),
                    refresh_token: s.refresh_token.clone(),
                    expires_at: s.expires_at.clone(),
                    last_sync_at: Some(now.to_owned()),
                },
            ),
            None => None,
        };
        self.session = updated;
        Ok(())
    }

    /// Removes the session row.
    pub fn clear_session(&mut self) -> (r: Result<(), AppError>)
        requires
            old(self).wf(),
        ensures
            final(self).wf(),
            r is Ok,
            final(self)@ == old(self)@.clear_session(),
    {
        self.session = None;
        Ok(())
    }

    /// The settings row.
    pub fn get_settings(&self) -> (r: Result<AppSettings, AppError>)
        ensures
            r matches Ok(s) && s@ == self@.settings,
    {
        Ok(self.settings.clone())
    }

    /// Replaces the settings row.
    pub fn save_settings(&mut self, settings: &AppSettings) -> (r: Result<(), AppError>)
        requires
            old(self).wf(),
        ensures
            final(self).wf(),
            r is Ok,
            final(self)@ == old(self)@.save_settings(settings@),
    {
        self.settings = settings.clone();
        Ok(())
    }

    /// Stores one record as the server sent it, without touching the outbox.
    fn upsert_vault_item(&mut self, item: &VaultItem)
        requires
            old(self).wf(),
        ensures
            final(self).wf(),
            final(self)@ == (StoreState {
                items: upsert_item(old(self)@.items, item@),
                ..old(self)@
            }),
    {
        let p = find_item(&self.items, item.id.as_str());
        proof {
            lemma_position(item_ids(self@.items), item@.id);
        }
        if p < self.items.len() {
            self.items[p] = item.clone();
        } else {
            self.items.push(item.clone());
        }
        proof {
            let before = old(self)@.items;
            let after = self@.items;
            if p < before.len() {
                assert(after =~= before.update(p as int, item@));
                assert(item_ids(after) =~= item_ids(before));
            } else {
                assert(after =~= before.push(item@));
                assert(item_ids(after) =~= item_ids(before).push(item@.id));
            }
        }
    }

    /// Stores one folder as the server sent it, without touching the outbox.
    fn upsert_folder_row(&mut self, folder: &Folder)
        requires
            old(self).wf(),
        ensures
            final(self).wf(),
            final(self)@ == (StoreState {
                folders: upsert_folder(old(self)@.folders, folder@),
                ..old(self)@
            }),
    {
        let p = find_folder(&self.folders, folder.id.as_str());
        proof {
            lemma_position(folder_ids(self@.folders), folder@.id);
        }
        if p < self.folders.len() {
            self.folders[p] = folder.clone();
        } else {
            self.folders.push(folder.clone());
        }
        proof {
            let before = old(self)@.folders;
            let after = self@.folders;
            if p < before.len() {
                assert(after =~= before.update(p as int, folder@));
                assert(folder_ids(after) =~= folder_ids(before));
            } else {
                assert(after =~= before.push(folder@));
                assert(folder_ids(after) =~= folder_ids(before).push(folder@.id));
            }
        }
    }

    /// Stores a batch of records that came from the server: each one replaces
    /// the row with its id or is added. The outbox is not touched, and the
    /// batch is applied whole.
    pub fn bulk_upsert_vault_items(&mut self, items: &Vec<VaultItem>) -> (r: Result<(), AppError>)
        requires
            old(self).wf(),
        ensures
            final(self).wf(),
            r is Ok,
            final(self)@ == old(self)@.bulk_upsert_items(item_views(items@)),
    {
        let mut i: usize = 0;
        proof {
            assert(item_views(items@).take(0) =~= Seq::empty());
        }
        while i < items.len()
            invariant
                i <= items.len(),
                self.wf(),
                self@ == (StoreState {
                    items: upsert_items(old(self)@.items, item_views(items@).take(i as int)),
                    ..old(self)@
                }),
            decreases items.len() - i,
        {
            self.upsert_vault_item(&items[i]);
            proof {
                let batch = item_views(items@);
                assert(batch.take(i + 1).drop_last() =~= batch.take(i as int));
                assert(batch.take(i + 1).last() == items[i as int]@);
            }
            i = i + 1;
        }
        proof {
            assert(item_views(items@).take(i as int) =~= item_views(items@));
        }
        Ok(())
    }

    /// Stores a batch of folders that came from the server: each one replaces
    /// the row with its id or is added. The outbox is not touched, and the
    /// batch is applied whole.
    pub fn bulk_upsert_folders(&mut self, folders: &Vec<Folder>) -> (r: Result<(), AppError>)
        requires
            old(self).wf(),
        ensures
            final(self).wf(),
            r is Ok,
            final(self)@ == old(self)@.bulk_upsert_folders(folder_views(folders@)),
    {
        let mut i: usize = 0;
        proof {
            assert(folder_views(folders@).take(0) =~= Seq::empty());
        }
        while i < folders.len()
            invariant
                i <= folders.len(),
                self.wf(),
                self@ == (StoreState {
                    folders: upsert_folders(
                        old(self)@.folders,
                        folder_views(folders@).take(i as int),
                    ),
                    ..old(self)@
                }),
            decreases folders.len() - i,
        {
            self.upsert_folder_row(&folders[i]);
            proof {
                let batch = folder_views(folders@);
                assert(batch.take(i + 1).drop_last() =~= batch.take(i as int));
                assert(batch.take(i + 1).last() == folders[i as int]@);
            }
            i = i + 1;
        }
        proof {
            assert(folder_views(folders@).take(i as int) =~= folder_views(folders@));
        }
        Ok(())
    }

    /// Removes every record, folder and outbox entry and the session row.
    /// The settings stay.
    pub fn clear_all_data(&mut self) -> (r: Result<(), AppError>)
        requires
            old(self).wf(),
        ensures
            final(self).wf(),
            r is Ok,
            final(self)@ == old(self)@.wipe(),
    {
        self.items = Vec::new();
        self.folders = Vec::new();
        self.queue = Vec::new();
        self.session = None;
        proof {
            assert(self@.items =~= Seq::empty());
            assert(self@.folders =~= Seq::empty());
            assert(self@.queue =~= Seq::empty());
        }
        Ok(())
    }
}

// Listings.
impl Database {
    /// The records outside the trash, most recently edited first.
    pub fn get_all_vault_items(&self) -> (r: Result<Vec<VaultItem>, AppError>)
        ensures
            r matches Ok(list) && {
                &&& item_views(list@).to_multiset() == self@.active_items().to_multiset()
                &&& forall|k: int| 0 <= k < list.len() ==> (#[trigger] list[k]).deleted_at is None
                &&& forall|i: int, j: int|
                    0 <= i < j < list.len() ==> text_le(
                        list[j].local_updated_at@,
                        list[i].local_updated_at@,
                    )
            },
    {
        let mut keys: Vec<String> = Vec::new();
        let mut out: Vec<VaultItem> = Vec::new();
        let mut i: usize = 0;
        proof {
            assert(self@.items.take(0) =~= Seq::empty());
            assert(item_views(out@) =~= Seq::empty());
            Seq::<VaultItemView>::empty().lemma_filter_len(active_pred());
            assert(Seq::<VaultItemView>::empty().filter(active_pred()) =~= Seq::empty());
        }
        while i < self.items.len()
            invariant
                i <= self.items.len(),
                keys.len() == out.len(),
                ranked(key_views(keys@), true),
                forall|k: int| 0 <= k < out.len() ==> (#[trigger] keys[k])@ == out[k].local_updated_at@,
                forall|k: int| 0 <= k < out.len() ==> (#[trigger] out[k]).deleted_at is None,
                item_views(out@).to_multiset() == self@.items.take(i as int).filter(
                    active_pred(),
                ).to_multiset(),
            decreases self.items.len() - i,
        {
            let row = &self.items[i];
            proof {
                let seen = self@.items.take(i as int);
                assert(self@.items.take(i + 1) =~= seen.push(row@));
                seen.lemma_filter_push(row@, active_pred());
            }
            if row.deleted_at.is_none() {
                let ghost before = out@;
                let copy = row.clone();
                let at = insert_ranked(&mut keys, &mut out, row.local_updated_at.clone(), copy, true);
                proof {
                    assert(item_views(out@) =~= item_views(before).insert(at as int, copy@));
                    to_multiset_insert(item_views(before), at as int, copy@);
                    to_multiset_build(self@.items.take(i as int).filter(active_pred()), row@);
                }
            }
            i = i + 1;
        }
        proof {
            assert(self@.items.take(i as int) =~= self@.items);
            assert forall|a: int, b: int| 0 <= a < b < out.len() implies text_le(
                out[b].local_updated_at@,
                out[a].local_updated_at@,
            ) by {
                assert(in_order(key_views(keys@)[a], key_views(keys@)[b], true));
            }
        }
        Ok(out)
    }

    /// The records in the trash, most recently deleted first.
    pub fn get_trashed_items(&self) -> (r: Result<Vec<VaultItem>, AppError>)
        ensures
            r matches Ok(list) && {
                &&& item_views(list@).to_multiset() == self@.trashed_items().to_multiset()
                &&& forall|k: int| 0 <= k < list.len() ==> (#[trigger] list[k]).deleted_at is Some
                &&& forall|i: int, j: int|
                    0 <= i < j < list.len() ==> text_le(
                        deleted_key(list[j]@),
                        deleted_key(list[i]@),
                    )
            },
    {
        let mut keys: Vec<String> = Vec::new();
        let mut out: Vec<VaultItem> = Vec::new();
        let mut i: usize = 0;
        proof {
            assert(self@.items.take(0) =~= Seq::empty());
            assert(item_views(out@) =~= Seq::empty());
            Seq::<VaultItemView>::empty().lemma_filter_len(trashed_pred());
            assert(Seq::<VaultItemView>::empty().filter(trashed_pred()) =~= Seq::empty());
        }
        while i < self.items.len()
            invariant
                i <= self.items.len(),
                keys.len() == out.len(),
                ranked(key_views(keys@), true),
                forall|k: int| 0 <= k < out.len() ==> (#[trigger] keys[k])@ == deleted_key(out[k]@),
                forall|k: int| 0 <= k < out.len() ==> (#[trigger] out[k]).deleted_at is Some,
                item_views(out@).to_multiset() == self@.items.take(i as int).filter(
                    trashed_pred(),
                ).to_multiset(),
            decreases self.items.len() - i,
        {
            let row = &self.items[i];
            proof {
                let seen = self@.items.take(i as int);
                assert(self@.items.take(i + 1) =~= seen.push(row@));
                seen.lemma_filter_push(row@, trashed_pred());
            }
            match &row.deleted_at {
                Some(when) => {
                    let ghost before = out@;
                    let copy = row.clone();
                    let at = insert_ranked(&mut keys, &mut out, when.clone(), copy, true);
                    proof {
                        assert(item_views(out@) =~= item_views(before).insert(at as int, copy@));
                        to_multiset_insert(item_views(before), at as int, copy@);
                        to_multiset_build(
                            self@.items.take(i as int).filter(trashed_pred()),
                            row@,
                        );
                    }
                },
                None => {},
            }
            i = i + 1;
        }
        proof {
            assert(self@.items.take(i as int) =~= self@.items);
            assert forall|a: int, b: int| 0 <= a < b < out.len() implies text_le(
                deleted_key(out[b]@),
                deleted_key(out[a]@),
            ) by {
                assert(in_order(key_views(keys@)[a], key_views(keys@)[b], true));
            }
        }
        Ok(out)
    }

    /// The folders, by name.
    pub fn get_all_folders(&self) -> (r: Result<Vec<Folder>, AppError>)
        ensures
            r matches Ok(list) && {
                &&& folder_views(list@).to_multiset() == self@.folders.to_multiset()
                &&& forall|i: int, j: int|
                    0 <= i < j < list.len() ==> text_le(list[i].name@, list[j].name@)
            },
    {
        let mut keys: Vec<String> = Vec::new();
        let mut out: Vec<Folder> = Vec::new();
        let mut i: usize = 0;
        proof {
            assert(self@.folders.take(0) =~= Seq::empty());
            assert(folder_views(out@) =~= Seq::empty());
        }
        while i < self.folders.len()
            invariant
                i <= self.folders.len(),
                keys.len() == out.len(),
                ranked(key_views(keys@), false),
                forall|k: int| 0 <= k < out.len() ==> (#[trigger] keys[k])@ == out[k].name@,
                folder_views(out@).to_multiset() == self@.folders.take(i as int).to_multiset(),
            decreases self.folders.len() - i,
        {
            let row = &self.folders[i];
            let ghost before = out@;
            let copy = row.clone();
            let at = insert_ranked(&mut keys, &mut out, row.name.clone(), copy, false);
            proof {
                let seen = self@.folders.take(i as int);
                assert(self@.folders.take(i + 1) =~= seen.push(row@));
                assert(folder_views(out@) =~= folder_views(before).insert(at as int, copy@));
                to_multiset_insert(folder_views(before), at as int, copy@);
                to_multiset_build(seen, row@);
            }
            i = i + 1;
        }
        proof {
            assert(self@.folders.take(i as int) =~= self@.folders);
            assert forall|a: int, b: int| 0 <= a < b < out.len() implies text_le(
                out[a].name@,
                out[b].name@,
            ) by {
                assert(in_order(key_views(keys@)[a], key_views(keys@)[b], false));
            }
        }
        Ok(out)
    }

    /// The records that the server has not seen in their present state: never
    /// acknowledged, or edited after the last acknowledgment. They come in
    /// storage order.
    pub fn get_unsynced_items(&self) -> (r: Result<Vec<VaultItem>, AppError>)
        ensures
            r matches Ok(list) && item_views(list@) == self@.unsynced_items(),
    {
        let mut out: Vec<VaultItem> = Vec::new();
        let mut i: usize = 0;
        proof {
            assert(self@.items.take(0) =~= Seq::empty());
            assert(item_views(out@) =~= Seq::empty());
            Seq::<VaultItemView>::empty().lemma_filter_len(unsynced_pred());
            assert(Seq::<VaultItemView>::empty().filter(unsynced_pred()) =~= Seq::empty());
        }
        while i < self.items.len()
            invariant
                i <= self.items.len(),
                item_views(out@) == self@.items.take(i as int).filter(unsynced_pred()),
            decreases self.items.len() - i,
        {
            let row = &self.items[i];
            proof {
                let seen = self@.items.take(i as int);
                assert(self@.items.take(i + 1) =~= seen.push(row@));
                seen.lemma_filter_push(row@, unsynced_pred());
            }
            let wanted = match &row.synced_at {
                Some(acknowledged) => text_less(
                    acknowledged.as_str(),
                    row.local_updated_at.as_str(),
                ),
                None => true,
            };
            if wanted {
                let ghost before = out@;
                let copy = row.clone();
                out.push(copy);
                proof {
                    assert(item_views(out@) =~= item_views(before).push(copy@));
                }
            }
            i = i + 1;
        }
        proof {
            assert(self@.items.take(i as int) =~= self@.items);
        }
        Ok(out)
    }
}

/// Whether the entries are numbered upwards, from 1 at least to `last` at
/// most.
pub open spec fn in_sequence(queue: Seq<SyncQueueItemView>, last: int) -> bool {
    &&& forall|i: int| 0 <= i < queue.len() ==> 1 <= (#[trigger] queue[i]).id <= last
    &&& forall|i: int, j: int|
        0 <= i < j < queue.len() ==> (#[trigger] queue[i]).id < (#[trigger] queue[j]).id
}

/// The complaint about an outbox that is not numbered upwards.
pub open spec fn out_of_sequence() -> AppErrorView {
    AppErrorView::InvalidOperation("outbox is not in sequence"@)
}

/// Decides `in_sequence`.
fn check_sequence(queue: &Vec<SyncQueueItem>, last: i64) -> (r: bool)
    ensures
        r == in_sequence(entry_views(queue@), last as int),
{
    let mut i: usize = 0;
    let mut previous: i64 = 0;
    while i < queue.len()
        invariant
            i <= queue.len(),
            i == 0 ==> previous == 0,
            i > 0 ==> previous == queue[i - 1].id,
            in_sequence(entry_views(queue@).take(i as int), last as int),
        decreases queue.len() - i,
    {
        let id = queue[i].id;
        if id <= previous || id > last {
            proof {
                let all = entry_views(queue@);
                assert(all[i as int] == queue[i as int]@);
                assert(all[i as int].id == id);
                if id > last || id < 1 {
                    assert(!(1 <= all[i as int].id <= last));
                    assert(!in_sequence(all, last as int));
                } else {
                    assert(i > 0);
                    assert(all[i - 1] == queue[i - 1]@);
                    assert(!(all[i - 1].id < all[i as int].id));
                    assert(!in_sequence(all, last as int));
                }
            }
            return false;
        }
        proof {
            let all = entry_views(queue@);
            let before = all.take(i as int);
            let now = all.take(i + 1);
            assert forall|a: int, b: int| 0 <= a < b < now.len() implies (#[trigger] now[a]).id < (
            #[trigger] now[b]).id by {
                if b < i {
                    assert(before[a].id < before[b].id);
                } else if a < i - 1 {
                    assert(before[a].id < before[i - 1].id);
                }
            }
            assert forall|a: int| 0 <= a < now.len() implies 1 <= (#[trigger] now[a]).id
                <= last by {
                if a < i {
                    assert(1 <= before[a].id);
                }
            }
        }
        previous = id;
        i = i + 1;
    }
    proof {
        assert(entry_views(queue@).take(i as int) =~= entry_views(queue@));
    }
    true
}

// Saving and restoring.
impl Database {
    /// The largest sequence number that an outbox entry was ever given.
    pub fn last_sequence(&self) -> (n: i64)
        ensures
            n == self@.last_sequence,
    {
        self.last_sequence
    }

    /// Builds a store out of what was saved of one: the rows are taken one by
    /// one, a later row replacing an earlier one with the same id, and the
    /// outbox is taken as it is. An outbox that is not numbered upwards
    /// within `1..=last_sequence` is refused.
    pub fn from_parts(
        items: &Vec<VaultItem>,
        folders: &Vec<Folder>,
        queue: Vec<SyncQueueItem>,
        last_sequence: i64,
        session: Option<UserSession>,
        settings: AppSettings,
    ) -> (r: Result<Database, AppError>)
        ensures
            match r {
                Ok(db) => {
                    &&& 0 <= last_sequence
                    &&& in_sequence(entry_views(queue@), last_sequence as int)
                    &&& db.wf()
                    &&& db@ == (StoreState {
                        items: upsert_items(Seq::empty(), item_views(items@)),
                        folders: upsert_folders(Seq::empty(), folder_views(folders@)),
                        queue: entry_views(queue@),
                        last_sequence: last_sequence as int,
                        session: session_view(session),
                        settings: settings@,
                    })
                },
                Err(e) => !(0 <= last_sequence && in_sequence(
                    entry_views(queue@),
                    last_sequence as int,
                )) && e@ == out_of_sequence(),
            },
    {
        if last_sequence < 0 || !check_sequence(&queue, last_sequence) {
            return Err(AppError::InvalidOperation(String::from_str("outbox is not in sequence")));
        }
        let mut db = Database {
            items: Vec::new(),
            folders: Vec::new(),
            queue,
            last_sequence,
            session,
            settings,
        };
        proof {
            assert(db@.items =~= Seq::empty());
            assert(db@.folders =~= Seq::empty());
        }
        let _ = db.bulk_upsert_vault_items(items);
        let _ = db.bulk_upsert_folders(folders);
        Ok(db)
    }
}

} // verus!
