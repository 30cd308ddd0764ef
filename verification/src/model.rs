//! The mathematical model of the local store: three tables, the session row
//! and the settings row, with every operation of the store as a function on
//! that state.

use vstd::prelude::*;
use crate::json::{closed, json_bool, json_quoted, json_quoted_opt, with_member};
use crate::records::{
    default_settings, AppSettingsView, FolderView, SyncQueueItemView, UserSessionView,
    VaultItemView,
};
use crate::text::{text_le, text_lt};

verus! {

/// The first position at which `id` occurs in `ids`, or the length of `ids`
/// where it does not occur.
pub open spec fn position<K>(ids: Seq<K>, id: K) -> int
    decreases ids.len(),
{
    if ids.len() == 0 {
        0
    } else {
        let p = position(ids.drop_last(), id);
        if p < ids.len() - 1 {
            p
        } else if ids.last() == id {
            ids.len() - 1
        } else {
            ids.len() as int
        }
    }
}

pub proof fn lemma_position<K>(ids: Seq<K>, id: K)
    ensures
        0 <= position(ids, id) <= ids.len(),
        position(ids, id) < ids.len() ==> ids[position(ids, id)] == id,
        forall|j: int| 0 <= j < position(ids, id) ==> ids[j] != id,
    decreases ids.len(),
{
    if ids.len() > 0 {
        lemma_position(ids.drop_last(), id);
        let p = position(ids.drop_last(), id);
        assert forall|j: int| 0 <= j < position(ids, id) implies ids[j] != id by {
            if j < ids.len() - 1 {
                assert(ids.drop_last()[j] == ids[j]);
            }
        }
        if p < ids.len() - 1 {
            assert(ids.drop_last()[p] == ids[p]);
        }
    }
}

/// A position that holds `id` with none before it is the position of `id`.
pub proof fn lemma_position_is<K>(ids: Seq<K>, id: K, i: int)
    requires
        0 <= i <= ids.len(),
        i < ids.len() ==> ids[i] == id,
        forall|j: int| 0 <= j < i ==> ids[j] != id,
    ensures
        position(ids, id) == i,
{
    lemma_position(ids, id);
}

pub open spec fn item_ids(items: Seq<VaultItemView>) -> Seq<Seq<char>> {
    Seq::new(items.len(), |i: int| items[i].id)
}

pub open spec fn folder_ids(folders: Seq<FolderView>) -> Seq<Seq<char>> {
    Seq::new(folders.len(), |i: int| folders[i].id)
}

pub open spec fn entry_ids(queue: Seq<SyncQueueItemView>) -> Seq<int> {
    Seq::new(queue.len(), |i: int| queue[i].id)
}

/// Where the entry numbered `sequence_id` sits in the outbox, or its length.
pub open spec fn entry_position(queue: Seq<SyncQueueItemView>, sequence_id: int) -> int {
    position(entry_ids(queue), sequence_id)
}

/// The test that keeps the records outside the trash.
pub open spec fn active_pred() -> spec_fn(VaultItemView) -> bool {
    |r: VaultItemView| is_active(r)
}

/// The test that keeps the records in the trash.
pub open spec fn trashed_pred() -> spec_fn(VaultItemView) -> bool {
    |r: VaultItemView| !is_active(r)
}

/// The test that keeps the records the server has not seen as they are.
pub open spec fn unsynced_pred() -> spec_fn(VaultItemView) -> bool {
    |r: VaultItemView| is_unsynced(r)
}

/// The time a record went to the trash; the empty text outside the trash.
pub open spec fn deleted_key(r: VaultItemView) -> Seq<char> {
    match r.deleted_at {
        Some(t) => t,
        None => Seq::empty(),
    }
}

/// Whether `a` may stand before `b` in a list ranked upwards or downwards.
pub open spec fn in_order(a: Seq<char>, b: Seq<char>, descending: bool) -> bool {
    if descending {
        text_le(b, a)
    } else {
        text_le(a, b)
    }
}

/// Whether the keys stand in rank order.
pub open spec fn ranked(keys: Seq<Seq<char>>, descending: bool) -> bool {
    forall|i: int, j: int| 0 <= i < j < keys.len() ==> in_order(keys[i], keys[j], descending)
}

/// Where the record `id` sits among `items`, or `items.len()`.
pub open spec fn item_position(items: Seq<VaultItemView>, id: Seq<char>) -> int {
    position(item_ids(items), id)
}

/// Where the folder `id` sits among `folders`, or `folders.len()`.
pub open spec fn folder_position(folders: Seq<FolderView>, id: Seq<char>) -> int {
    position(folder_ids(folders), id)
}

/// Inserts the record, or fully replaces the row that has its id.
pub open spec fn upsert_item(items: Seq<VaultItemView>, item: VaultItemView) -> Seq<
    VaultItemView,
> {
    let p = item_position(items, item.id);
    if p < items.len() {
        items.update(p, item)
    } else {
        items.push(item)
    }
}

/// Inserts the folder, or fully replaces the row that has its id.
pub open spec fn upsert_folder(folders: Seq<FolderView>, folder: FolderView) -> Seq<FolderView> {
    let p = folder_position(folders, folder.id);
    if p < folders.len() {
        folders.update(p, folder)
    } else {
        folders.push(folder)
    }
}

/// The batch applied record by record, first to last.
pub open spec fn upsert_items(items: Seq<VaultItemView>, batch: Seq<VaultItemView>) -> Seq<
    VaultItemView,
>
    decreases batch.len(),
{
    if batch.len() == 0 {
        items
    } else {
        upsert_item(upsert_items(items, batch.drop_last()), batch.last())
    }
}

/// The batch applied folder by folder, first to last.
pub open spec fn upsert_folders(folders: Seq<FolderView>, batch: Seq<FolderView>) -> Seq<
    FolderView,
>
    decreases batch.len(),
{
    if batch.len() == 0 {
        folders
    } else {
        upsert_folder(upsert_folders(folders, batch.drop_last()), batch.last())
    }
}

/// A record that is not in the trash.
pub open spec fn is_active(item: VaultItemView) -> bool {
    item.deleted_at is None
}

/// A record that the server has not seen in its present state: never
/// acknowledged, or changed locally after the last acknowledgment.
pub open spec fn is_unsynced(item: VaultItemView) -> bool {
    match item.synced_at {
        None => true,
        Some(s) => text_lt(s, item.local_updated_at),
    }
}

/// The snapshot of a record that travels with its outbox entry.
pub open spec fn item_payload(item: VaultItemView) -> Option<Seq<char>> {
    let a = with_member(Some(""@), "{\"id\":"@, json_quoted(item.id));
    let b = with_member(a, ",\"encryptedData\":"@, json_quoted(item.encrypted_data));
    let c = with_member(b, ",\"itemType\":"@, json_quoted(item.item_type));
    let d = with_member(c, ",\"folderId\":"@, json_quoted_opt(item.folder_id));
    let e = with_member(d, ",\"isFavorite\":"@, Some(json_bool(item.is_favorite)));
    let f = with_member(e, ",\"deletedAt\":"@, json_quoted_opt(item.deleted_at));
    let g = with_member(f, ",\"syncedAt\":"@, json_quoted_opt(item.synced_at));
    let h = with_member(g, ",\"localUpdatedAt\":"@, json_quoted(item.local_updated_at));
    let i = with_member(h, ",\"serverUpdatedAt\":"@, json_quoted_opt(item.server_updated_at));
    closed(i)
}

/// The snapshot of a folder that travels with its outbox entry.
pub open spec fn folder_payload(folder: FolderView) -> Option<Seq<char>> {
    let a = with_member(Some(""@), "{\"id\":"@, json_quoted(folder.id));
    let b = with_member(a, ",\"name\":"@, json_quoted(folder.name));
    let c = with_member(b, ",\"syncedAt\":"@, json_quoted_opt(folder.synced_at));
    let d = with_member(c, ",\"localUpdatedAt\":"@, json_quoted(folder.local_updated_at));
    closed(d)
}

/// The record with its folder reference cleared where it pointed at `folder`.
pub open spec fn detached(row: VaultItemView, folder: Seq<char>) -> VaultItemView {
    if row.folder_id == Some(folder) {
        VaultItemView { folder_id: None, ..row }
    } else {
        row
    }
}

/// The whole state of the local store.
pub struct StoreState {
    /// The vault records; no two share an id.
    pub items: Seq<VaultItemView>,
    /// The folders; no two share an id.
    pub folders: Seq<FolderView>,
    /// The outbox, oldest entry first.
    pub queue: Seq<SyncQueueItemView>,
    /// The largest sequence number ever given to an outbox entry.
    pub last_sequence: int,
    /// The session row, if someone is logged in.
    pub session: Option<UserSessionView>,
    /// The settings row.
    pub settings: AppSettingsView,
}

impl StoreState {
    /// What holds of every state that the store can reach.
    pub open spec fn wf(self) -> bool {
        &&& item_ids(self.items).no_duplicates()
        &&& folder_ids(self.folders).no_duplicates()
        &&& 0 <= self.last_sequence <= i64::MAX
        &&& forall|i: int|
            0 <= i < self.queue.len() ==> 1 <= (#[trigger] self.queue[i]).id
                <= self.last_sequence
        &&& forall|i: int, j: int|
            0 <= i < j < self.queue.len() ==> (#[trigger] self.queue[i]).id
                < (#[trigger] self.queue[j]).id
    }

    /// A store that has never been used.
    pub open spec fn empty() -> StoreState {
        StoreState {
            items: Seq::empty(),
            folders: Seq::empty(),
            queue: Seq::empty(),
            last_sequence: 0,
            session: None,
            settings: default_settings(),
        }
    }

    /// Whether one more outbox entry can be numbered.
    pub open spec fn can_enqueue(self) -> bool {
        self.last_sequence < i64::MAX
    }

    /// One more entry at the end of the outbox.
    pub open spec fn enqueue(
        self,
        operation: Seq<char>,
        table_name: Seq<char>,
        record_id: Seq<char>,
        payload: Option<Seq<char>>,
        now: Seq<char>,
    ) -> StoreState {
        StoreState {
            queue: self.queue.push(
                SyncQueueItemView {
                    id: self.last_sequence + 1,
                    operation,
                    table_name,
                    record_id,
                    payload,
                    created_at: now,
                },
            ),
            last_sequence: self.last_sequence + 1,
            ..self
        }
    }

    /// The record with this id, if the store holds one.
    pub open spec fn item(self, id: Seq<char>) -> Option<VaultItemView> {
        let p = item_position(self.items, id);
        if p < self.items.len() {
            Some(self.items[p])
        } else {
            None
        }
    }

    /// The folder with this id, if the store holds one.
    pub open spec fn folder(self, id: Seq<char>) -> Option<FolderView> {
        let p = folder_position(self.folders, id);
        if p < self.folders.len() {
            Some(self.folders[p])
        } else {
            None
        }
    }

    /// The record is stored, replacing any row with its id, and a `create`
    /// entry with its snapshot joins the outbox.
    pub open spec fn insert_item(self, item: VaultItemView, now: Seq<char>) -> StoreState {
        StoreState { items: upsert_item(self.items, item), ..self }.enqueue(
            "create"@,
            "vault_items"@,
            item.id,
            item_payload(item),
            now,
        )
    }

    /// The record is stored as given, replacing any row with its id, and an
    /// `update` entry with its snapshot joins the outbox.
    pub open spec fn update_item(self, item: VaultItemView, now: Seq<char>) -> StoreState {
        StoreState { items: upsert_item(self.items, item), ..self }.enqueue(
            "update"@,
            "vault_items"@,
            item.id,
            item_payload(item),
            now,
        )
    }

    /// The row, if there is one, gets `deleted_at` set to `deleted_at` and is
    /// stamped as edited at `now`; an `update` entry without snapshot joins
    /// the outbox either way.
    pub open spec fn mark_deleted(self, id: Seq<char>, deleted_at: Option<Seq<char>>, now: Seq<char>)
        -> StoreState {
        let p = item_position(self.items, id);
        let items = if p < self.items.len() {
            self.items.update(
                p,
                VaultItemView { deleted_at, local_updated_at: now, ..self.items[p] },
            )
        } else {
            self.items
        };
        StoreState { items, ..self }.enqueue("update"@, "vault_items"@, id, None, now)
    }

    /// The record moves to the trash.
    pub open spec fn soft_delete_item(self, id: Seq<char>, now: Seq<char>) -> StoreState {
        self.mark_deleted(id, Some(now), now)
    }

    /// The record leaves the trash.
    pub open spec fn restore_item(self, id: Seq<char>, now: Seq<char>) -> StoreState {
        self.mark_deleted(id, None, now)
    }

    /// The row is removed for good; a `delete` entry joins the outbox.
    pub open spec fn purge_item(self, id: Seq<char>, now: Seq<char>) -> StoreState {
        let p = item_position(self.items, id);
        let items = if p < self.items.len() {
            self.items.remove(p)
        } else {
            self.items
        };
        StoreState { items, ..self }.enqueue("delete"@, "vault_items"@, id, None, now)
    }

    /// The folder is stored, replacing any row with its id, and a `create`
    /// entry with its snapshot joins the outbox.
    pub open spec fn insert_folder(self, folder: FolderView, now: Seq<char>) -> StoreState {
        StoreState { folders: upsert_folder(self.folders, folder), ..self }.enqueue(
            "create"@,
            "folders"@,
            folder.id,
            folder_payload(folder),
            now,
        )
    }

    /// The folder is stored as given, replacing any row with its id, and an
    /// `update` entry with its snapshot joins the outbox.
    pub open spec fn update_folder(self, folder: FolderView, now: Seq<char>) -> StoreState {
        StoreState { folders: upsert_folder(self.folders, folder), ..self }.enqueue(
            "update"@,
            "folders"@,
            folder.id,
            folder_payload(folder),
            now,
        )
    }

    /// The folder is removed and every record that pointed at it points
    /// nowhere; a `delete` entry joins the outbox.
    pub open spec fn delete_folder(self, id: Seq<char>, now: Seq<char>) -> StoreState {
        let p = folder_position(self.folders, id);
        let folders = if p < self.folders.len() {
            self.folders.remove(p)
        } else {
            self.folders
        };
        let items = Seq::new(self.items.len(), |i: int| detached(self.items[i], id));
        StoreState { items, folders, ..self }.enqueue("delete"@, "folders"@, id, None, now)
    }

    /// The outbox without the entry numbered `sequence_id`.
    pub open spec fn dequeue(self, sequence_id: int) -> StoreState {
        let p = entry_position(self.queue, sequence_id);
        if p < self.queue.len() {
            StoreState { queue: self.queue.remove(p), ..self }
        } else {
            self
        }
    }

    /// The records outside the trash, in storage order.
    pub open spec fn active_items(self) -> Seq<VaultItemView> {
        self.items.filter(active_pred())
    }

    /// The records in the trash, in storage order.
    pub open spec fn trashed_items(self) -> Seq<VaultItemView> {
        self.items.filter(trashed_pred())
    }

    /// The records the server has not seen as they are, in storage order.
    pub open spec fn unsynced_items(self) -> Seq<VaultItemView> {
        self.items.filter(unsynced_pred())
    }

    /// The outbox emptied. Sequence numbers are not reused.
    pub open spec fn clear_queue(self) -> StoreState {
        StoreState { queue: Seq::empty(), ..self }
    }

    /// The acknowledgment of the server is recorded on the row: for a vault
    /// record also as the server's time of update. Other tables have no rows.
    pub open spec fn mark_synced(self, table_name: Seq<char>, record_id: Seq<char>, now: Seq<char>)
        -> StoreState {
        if table_name == "vault_items"@ {
            let p = item_position(self.items, record_id);
            if p < self.items.len() {
                StoreState {
                    items: self.items.update(
                        p,
                        VaultItemView {
                            synced_at: Some(now),
                            server_updated_at: Some(now),
                            ..self.items[p]
                        },
                    ),
                    ..self
                }
            } else {
                self
            }
        } else if table_name == "folders"@ {
            let p = folder_position(self.folders, record_id);
            if p < self.folders.len() {
                StoreState {
                    folders: self.folders.update(
                        p,
                        FolderView { synced_at: Some(now), ..self.folders[p] },
                    ),
                    ..self
                }
            } else {
                self
            }
        } else {
            self
        }
    }

    /// The session row replaced.
    pub open spec fn save_session(self, session: UserSessionView) -> StoreState {
        StoreState { session: Some(session), ..self }
    }

    /// The time of the last complete sync recorded on the session row, if
    /// there is one.
    pub open spec fn update_last_sync(self, now: Seq<char>) -> StoreState {
        match self.session {
            Some(s) => StoreState {
                session: Some(UserSessionView { last_sync_at: Some(now), ..s }),
                ..self
            },
            None => self,
        }
    }

    /// The session row removed.
    pub open spec fn clear_session(self) -> StoreState {
        StoreState { session: None, ..self }
    }

    /// The settings row replaced.
    pub open spec fn save_settings(self, settings: AppSettingsView) -> StoreState {
        StoreState { settings, ..self }
    }

    /// A batch of records from the server stored; the outbox is not touched.
    pub open spec fn bulk_upsert_items(self, batch: Seq<VaultItemView>) -> StoreState {
        StoreState { items: upsert_items(self.items, batch), ..self }
    }

    /// A batch of folders from the server stored; the outbox is not touched.
    pub open spec fn bulk_upsert_folders(self, batch: Seq<FolderView>) -> StoreState {
        StoreState { folders: upsert_folders(self.folders, batch), ..self }
    }

    /// Every record, folder and outbox entry and the session row removed.
    /// The settings stay, and sequence numbers are not reused.
    pub open spec fn wipe(self) -> StoreState {
        StoreState {
            items: Seq::empty(),
            folders: Seq::empty(),
            queue: Seq::empty(),
            session: None,
            ..self
        }
    }
}

} // verus!
