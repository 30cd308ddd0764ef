//! The operations that the user interface calls. Reading or changing vault
//! data is refused while the vault is locked.

use vstd::prelude::*;
use vstd::string::*;
use crate::clock::{current_moment, MomentView};
use crate::db::{sequence_exhausted, Database};
use crate::error::{AppError, AppErrorView};
use crate::records::{
    folder_views, item_views, session_view, AppSettings, Folder, UserSession, VaultItem,
    VaultItemView, FolderView,
};
use crate::remote::{password_request, HttpReply, HttpRequest, SupabaseConfig};
use crate::sync::{
    advance, auth_outcome, begin_initial, fresh_engine, report, start, unwritable_request, SyncEngine,
    SyncStatus, SyncStep, SyncStepView, Transition,
};
use crate::text::{opt_text, text_eq, text_le};

verus! {

/// Everything the operations work on.
pub struct AppState {
    pub db: Database,
    pub sync_engine: SyncEngine,
    /// Whether the vault is locked.
    pub is_locked: bool,
    /// The hash of the master key, while the vault is unlocked.
    pub master_key_hash: Option<String>,
}

#[derive(Debug)]
pub struct LoginRequest {
    pub email: String,
    pub password_hash: String,
    pub master_key_hash: String,
}

#[derive(Debug)]
pub struct LoginResponse {
    pub user_id: String,
    pub email: String,
}

#[derive(Debug)]
pub struct CreateVaultItemRequest {
    pub encrypted_data: String,
    pub item_type: String,
    pub folder_id: Option<String>,
    pub is_favorite: bool,
}

#[derive(Debug)]
pub struct UpdateVaultItemRequest {
    pub id: String,
    pub encrypted_data: String,
    pub item_type: String,
    pub folder_id: Option<String>,
    pub is_favorite: bool,
}

#[derive(Debug)]
pub struct CreateFolderRequest {
    pub name: String,
}

#[derive(Debug)]
pub struct UpdateFolderRequest {
    pub id: String,
    pub name: String,
}

/// The present time as an RFC 3339 text, read with `chrono::Utc::now` and
/// written with `to_rfc3339`. Nothing is known of a reading beforehand.
#[verifier::external_body]
pub fn get_current_timestamp() -> (r: String) {
    chrono::Utc::now().to_rfc3339()
}

/// A fresh random identifier, from `uuid::Uuid::new_v4`, in its hyphenated
/// lower-case form. Nothing is known of it beforehand.
#[verifier::external_body]
pub fn generate_uuid() -> (r: String) {
    uuid::Uuid::new_v4().to_string()
}

/// The refusal that a locked vault gives.
pub open spec fn locked_message() -> Seq<char> {
    AppErrorView::VaultLocked.text()
}

/// Refuses where the vault is locked.
pub fn check_locked(is_locked: bool) -> (r: Result<(), AppError>)
    ensures
        is_locked ==> (r matches Err(e) && e@ == AppErrorView::VaultLocked),
        !is_locked ==> r is Ok,
{
    if is_locked {
        Err(AppError::VaultLocked)
    } else {
        Ok(())
    }
}

/// The line shown for a locked vault.
fn locked() -> (m: String)
    ensures
        m@ == locked_message(),
{
    AppError::VaultLocked.message()
}

impl AppState {
    /// What holds of the state between any two operations.
    pub open spec fn wf(&self) -> bool {
        self.db.wf() && self.sync_engine.wf()
    }

    /// The state at the start of the application: the vault is locked and no
    /// key is known.
    pub fn new(db: Database, config: SupabaseConfig) -> (state: AppState)
        requires
            db.wf(),
        ensures
            state.wf(),
            state.db == db,
            state.is_locked,
            state.master_key_hash is None,
            state.sync_engine@ == fresh_engine(config@),
    {
        AppState {
            db,
            sync_engine: SyncEngine::new(config),
            is_locked: true,
            master_key_hash: None,
        }
    }
}

/// The request that opens a login.
pub fn login_request(state: &AppState, request: &LoginRequest) -> (r: Result<HttpRequest, String>)
    ensures
        match r {
            Ok(call) => password_request(
                state.sync_engine@.config,
                request.email@,
                request.password_hash@,
            ) == Some(call@),
            Err(m) => password_request(
                state.sync_engine@.config,
                request.email@,
                request.password_hash@,
            ) is None && m@ == unwritable_request().text(),
        },
{
    match state.sync_engine.authenticate_request(
        request.email.as_str(),
        request.password_hash.as_str(),
    ) {
        Ok(call) => Ok(call),
        Err(e) => Err(e.message()),
    }
}

/// Completes a login with the backend's answer. A refusal changes nothing
/// and is reported with the server's message. On success the session is
/// stored, the vault is unlocked with the given master key hash, and the
/// first sync of the session begins: its first step comes with the answer.
pub fn login(state: &mut AppState, request: LoginRequest, reply: HttpReply) -> (r: Result<
    (LoginResponse, SyncStep),
    String,
>)
    requires
        old(state).wf(),
    ensures
        final(state).wf(),
        exists|now: Seq<char>|
            match #[trigger] auth_outcome(reply, now) {
                Err(e) => r matches Err(m) && {
                    &&& m@ == e.text()
                    &&& final(state).db@ == old(state).db@
                    &&& final(state).sync_engine == old(state).sync_engine
                    &&& final(state).is_locked == old(state).is_locked
                    &&& final(state).master_key_hash == old(state).master_key_hash
                },
                Ok(session) => r matches Ok(answer) && {
                    &&& answer.0.user_id@ == session.user_id
                    &&& answer.0.email@ == session.email
                    &&& !final(state).is_locked
                    &&& opt_text(final(state).master_key_hash) == Some(request.master_key_hash@)
                    &&& (Transition {
                        engine: final(state).sync_engine@,
                        store: final(state).db@,
                        step: answer.1@,
                    }) == (if old(state).sync_engine@.status.is_syncing {
                        Transition {
                            engine: old(state).sync_engine@,
                            store: old(state).db@.save_session(session),
                            step: SyncStepView::Busy(
                                report(
                                    old(state).sync_engine@.status,
                                    old(state).db@.save_session(session),
                                ),
                            ),
                        }
                    } else {
                        begin_initial(
                            old(state).sync_engine@,
                            old(state).db@.save_session(session),
                            session,
                        )
                    })
                },
            },
{
    let now = current_moment();
    match state.sync_engine.authenticate(&mut state.db, reply, &now) {
        Err(e) => {
            proof {
                assert(auth_outcome(reply, now@.text) is Err);
            }
            Err(e.message())
        },
        Ok(session) => {
            state.master_key_hash = Some(request.master_key_hash);
            state.is_locked = false;
            let step = state.sync_engine.initial_sync(&mut state.db, &session);
            proof {
                assert(auth_outcome(reply, now@.text) is Ok);
            }
            Ok((LoginResponse { user_id: session.user_id, email: session.email }, step))
        },
    }
}

/// Locks the vault, forgets the key and removes everything of the user from
/// the store.
pub fn logout(state: &mut AppState) -> (r: Result<(), String>)
    requires
        old(state).wf(),
    ensures
        final(state).wf(),
        r is Ok,
        final(state).is_locked,
        final(state).master_key_hash is None,
        final(state).db@ == old(state).db@.wipe(),
        final(state).sync_engine == old(state).sync_engine,
{
    state.is_locked = true;
    state.master_key_hash = None;
    match state.sync_engine.logout(&mut state.db) {
        Ok(_) => Ok(()),
        Err(e) => Err(e.message()),
    }
}

/// The complaint about an unlock without a session.
pub open spec fn no_session_message() -> Seq<char> {
    AppErrorView::Auth("No session found"@).text()
}

/// The complaint about a master key hash that is not the stored one.
pub open spec fn wrong_password_message() -> Seq<char> {
    AppErrorView::Auth("Invalid master password"@).text()
}

/// Unlocks the vault of the stored session. `stored_hash` is the hash that
/// the credential store holds for the session's email, if it holds one: a
/// different hash is refused, and where none is stored any hash is taken.
pub fn unlock_vault(state: &mut AppState, master_key_hash: String, stored_hash: Option<String>)
    -> (r: Result<LoginResponse, String>)
    requires
        old(state).wf(),
    ensures
        final(state).wf(),
        final(state).db == old(state).db,
        final(state).sync_engine == old(state).sync_engine,
        match old(state).db@.session {
            None => r matches Err(m) && m@ == no_session_message() && *final(state) == *old(state),
            Some(session) => if opt_text(stored_hash) is Some && opt_text(stored_hash) != Some(
                master_key_hash@,
            ) {
                r matches Err(m) && m@ == wrong_password_message() && *final(state) == *old(state)
            } else {
                r matches Ok(answer) && answer.user_id@ == session.user_id && answer.email@
                    == session.email && !final(state).is_locked && opt_text(
                    final(state).master_key_hash,
                ) == Some(master_key_hash@)
            },
        },
{
    let session = match state.db.get_session() {
        Ok(Some(s)) => s,
        _ => {
            return Err(AppError::Auth(String::from_str("No session found")).message());
        },
    };
    match &stored_hash {
        Some(stored) => {
            if !text_eq(stored.as_str(), master_key_hash.as_str()) {
                return Err(AppError::Auth(String::from_str("Invalid master password")).message());
            }
        },
        None => {},
    }
    state.master_key_hash = Some(master_key_hash);
    state.is_locked = false;
    Ok(LoginResponse { user_id: session.user_id, email: session.email })
}

/// Locks the vault and forgets the key.
pub fn lock_vault(state: &mut AppState) -> (r: Result<(), String>)
    ensures
        r is Ok,
        final(state).is_locked,
        final(state).master_key_hash is None,
        final(state).db == old(state).db,
        final(state).sync_engine == old(state).sync_engine,
{
    state.is_locked = true;
    state.master_key_hash = None;
    Ok(())
}

/// Whether the vault is locked.
pub fn is_vault_locked(state: &AppState) -> (r: Result<bool, String>)
    ensures
        r == Ok::<bool, String>(state.is_locked),
{
    Ok(state.is_locked)
}

/// The stored session, if there is one. A missing session is no failure.
pub fn get_session(state: &AppState) -> (r: Result<Option<UserSession>, String>)
    ensures
        r matches Ok(s) && session_view(s) == state.db@.session,
{
    match state.db.get_session() {
        Ok(s) => Ok(s),
        Err(e) => Err(e.message()),
    }
}

/// Whether a session is stored.
pub fn has_stored_session(state: &AppState) -> (r: Result<bool, String>)
    ensures
        r matches Ok(b) && b == (state.db@.session is Some),
{
    match state.db.get_session() {
        Ok(s) => Ok(s.is_some()),
        Err(e) => Err(e.message()),
    }
}

/// The records outside the trash, most recently edited first.
pub fn get_vault_items(state: &AppState) -> (r: Result<Vec<VaultItem>, String>)
    ensures
        state.is_locked ==> (r matches Err(m) && m@ == locked_message()),
        !state.is_locked ==> (r matches Ok(list) && {
            &&& item_views(list@).to_multiset() == state.db@.active_items().to_multiset()
            &&& forall|k: int| 0 <= k < list.len() ==> (#[trigger] list[k]).deleted_at is None
            &&& forall|i: int, j: int|
                0 <= i < j < list.len() ==> text_le(
                    list[j].local_updated_at@,
                    list[i].local_updated_at@,
                )
        }),
{
    if state.is_locked {
        return Err(locked());
    }
    match state.db.get_all_vault_items() {
        Ok(list) => Ok(list),
        Err(e) => Err(e.message()),
    }
}

/// The records in the trash, most recently deleted first.
pub fn get_trashed_items(state: &AppState) -> (r: Result<Vec<VaultItem>, String>)
    ensures
        state.is_locked ==> (r matches Err(m) && m@ == locked_message()),
        !state.is_locked ==> (r matches Ok(list) && {
            &&& item_views(list@).to_multiset() == state.db@.trashed_items().to_multiset()
            &&& forall|k: int| 0 <= k < list.len() ==> (#[trigger] list[k]).deleted_at is Some
            &&& forall|i: int, j: int|
                0 <= i < j < list.len() ==> text_le(
                    crate::model::deleted_key(list[j]@),
                    crate::model::deleted_key(list[i]@),
                )
        }),
{
    if state.is_locked {
        return Err(locked());
    }
    match state.db.get_trashed_items() {
        Ok(list) => Ok(list),
        Err(e) => Err(e.message()),
    }
}

/// The record with this id, in the trash or not.
pub fn get_vault_item(state: &AppState, id: &str) -> (r: Result<Option<VaultItem>, String>)
    ensures
        state.is_locked ==> (r matches Err(m) && m@ == locked_message()),
        !state.is_locked ==> (r matches Ok(found) && (match found {
            Some(item) => state.db@.item(id@) == Some(item@),
            None => state.db@.item(id@) is None,
        })),
{
    if state.is_locked {
        return Err(locked());
    }
    match state.db.get_vault_item(id) {
        Ok(found) => Ok(found),
        Err(e) => Err(e.message()),
    }
}

/// What a store that cannot number another outbox entry says.
pub open spec fn exhausted_message() -> Seq<char> {
    sequence_exhausted().text()
}

/// Creates a record under a fresh id, edited now and never synced, and
/// queues its creation.
pub fn create_vault_item(state: &mut AppState, request: CreateVaultItemRequest) -> (r: Result<
    VaultItem,
    String,
>)
    requires
        old(state).wf(),
    ensures
        final(state).wf(),
        final(state).is_locked == old(state).is_locked,
        final(state).sync_engine == old(state).sync_engine,
        old(state).is_locked ==> (r matches Err(m) && m@ == locked_message() && final(state).db@
            == old(state).db@),
        !old(state).is_locked ==> (match r {
            Ok(item) => {
                &&& item@ == (VaultItemView {
                    id: item@.id,
                    encrypted_data: request.encrypted_data@,
                    item_type: request.item_type@,
                    folder_id: opt_text(request.folder_id),
                    is_favorite: request.is_favorite,
                    deleted_at: None,
                    synced_at: None,
                    local_updated_at: item@.local_updated_at,
                    server_updated_at: None,
                })
                &&& old(state).db@.can_enqueue()
                &&& final(state).db@ == old(state).db@.insert_item(item@, item@.local_updated_at)
            },
            Err(m) => !old(state).db@.can_enqueue() && m@ == exhausted_message() && final(state).db@ == old(state).db@,
        }),
{
    if state.is_locked {
        return Err(locked());
    }
    let now = get_current_timestamp();
    let item = VaultItem {
        id: generate_uuid(),
        encrypted_data: request.encrypted_data,
        item_type: request.item_type,
        folder_id: request.folder_id,
        is_favorite: request.is_favorite,
        deleted_at: None,
        synced_at: None,
        local_updated_at: now,
        server_updated_at: None,
    };
    match state.db.insert_vault_item(&item, item.local_updated_at.as_str()) {
        Ok(_) => Ok(item),
        Err(e) => Err(e.message()),
    }
}

/// Stores the record of the request in place of the row with its id, edited
/// now and not yet synced, and queues the edit.
pub fn update_vault_item(state: &mut AppState, request: UpdateVaultItemRequest) -> (r: Result<
    VaultItem,
    String,
>)
    requires
        old(state).wf(),
    ensures
        final(state).wf(),
        final(state).is_locked == old(state).is_locked,
        final(state).sync_engine == old(state).sync_engine,
        old(state).is_locked ==> (r matches Err(m) && m@ == locked_message() && final(state).db@
            == old(state).db@),
        !old(state).is_locked ==> (match r {
            Ok(item) => {
                &&& item@ == (VaultItemView {
                    id: request.id@,
                    encrypted_data: request.encrypted_data@,
                    item_type: request.item_type@,
                    folder_id: opt_text(request.folder_id),
                    is_favorite: request.is_favorite,
                    deleted_at: None,
                    synced_at: None,
                    local_updated_at: item@.local_updated_at,
                    server_updated_at: None,
                })
                &&& old(state).db@.can_enqueue()
                &&& final(state).db@ == old(state).db@.update_item(item@, item@.local_updated_at)
            },
            Err(m) => !old(state).db@.can_enqueue() && m@ == exhausted_message() && final(state).db@ == old(state).db@,
        }),
{
    if state.is_locked {
        return Err(locked());
    }
    let now = get_current_timestamp();
    let item = VaultItem {
        id: request.id,
        encrypted_data: request.encrypted_data,
        item_type: request.item_type,
        folder_id: request.folder_id,
        is_favorite: request.is_favorite,
        deleted_at: None,
        synced_at: None,
        local_updated_at: now,
        server_updated_at: None,
    };
    match state.db.update_vault_item(&item, item.local_updated_at.as_str()) {
        Ok(_) => Ok(item),
        Err(e) => Err(e.message()),
    }
}

/// Moves the record to the trash, as of now.
pub fn delete_vault_item(state: &mut AppState, id: &str) -> (r: Result<(), String>)
    requires
        old(state).wf(),
    ensures
        final(state).wf(),
        final(state).is_locked == old(state).is_locked,
        final(state).sync_engine == old(state).sync_engine,
        old(state).is_locked ==> (r matches Err(m) && m@ == locked_message() && final(state).db@
            == old(state).db@),
        !old(state).is_locked ==> (match r {
            Ok(_) => old(state).db@.can_enqueue() && exists|now: Seq<char>|
                final(state).db@ == #[trigger] old(state).db@.soft_delete_item(id@, now),
            Err(m) => !old(state).db@.can_enqueue() && m@ == exhausted_message() && final(state).db@ == old(state).db@,
        }),
{
    if state.is_locked {
        return Err(locked());
    }
    let now = get_current_timestamp();
    match state.db.soft_delete_vault_item(id, now.as_str()) {
        Ok(_) => Ok(()),
        Err(e) => Err(e.message()),
    }
}

/// Takes the record out of the trash, as of now.
pub fn restore_vault_item(state: &mut AppState, id: &str) -> (r: Result<(), String>)
    requires
        old(state).wf(),
    ensures
        final(state).wf(),
        final(state).is_locked == old(state).is_locked,
        final(state).sync_engine == old(state).sync_engine,
        old(state).is_locked ==> (r matches Err(m) && m@ == locked_message() && final(state).db@
            == old(state).db@),
        !old(state).is_locked ==> (match r {
            Ok(_) => old(state).db@.can_enqueue() && exists|now: Seq<char>|
                final(state).db@ == #[trigger] old(state).db@.restore_item(id@, now),
            Err(m) => !old(state).db@.can_enqueue() && m@ == exhausted_message() && final(state).db@ == old(state).db@,
        }),
{
    if state.is_locked {
        return Err(locked());
    }
    let now = get_current_timestamp();
    match state.db.restore_vault_item(id, now.as_str()) {
        Ok(_) => Ok(()),
        Err(e) => Err(e.message()),
    }
}

/// Removes the record for good.
pub fn permanently_delete_vault_item(state: &mut AppState, id: &str) -> (r: Result<(), String>)
    requires
        old(state).wf(),
    ensures
        final(state).wf(),
        final(state).is_locked == old(state).is_locked,
        final(state).sync_engine == old(state).sync_engine,
        old(state).is_locked ==> (r matches Err(m) && m@ == locked_message() && final(state).db@
            == old(state).db@),
        !old(state).is_locked ==> (match r {
            Ok(_) => old(state).db@.can_enqueue() && exists|now: Seq<char>|
                final(state).db@ == #[trigger] old(state).db@.purge_item(id@, now),
            Err(m) => !old(state).db@.can_enqueue() && m@ == exhausted_message() && final(state).db@ == old(state).db@,
        }),
{
    if state.is_locked {
        return Err(locked());
    }
    let now = get_current_timestamp();
    match state.db.permanently_delete_vault_item(id, now.as_str()) {
        Ok(_) => Ok(()),
        Err(e) => Err(e.message()),
    }
}

/// The folders, by name.
pub fn get_folders(state: &AppState) -> (r: Result<Vec<Folder>, String>)
    ensures
        state.is_locked ==> (r matches Err(m) && m@ == locked_message()),
        !state.is_locked ==> (r matches Ok(list) && {
            &&& folder_views(list@).to_multiset() == state.db@.folders.to_multiset()
            &&& forall|i: int, j: int|
                0 <= i < j < list.len() ==> text_le(list[i].name@, list[j].name@)
        }),
{
    if state.is_locked {
        return Err(locked());
    }
    match state.db.get_all_folders() {
        Ok(list) => Ok(list),
        Err(e) => Err(e.message()),
    }
}

/// Creates a folder under a fresh id, edited now and never synced, and
/// queues its creation.
pub fn create_folder(state: &mut AppState, request: CreateFolderRequest) -> (r: Result<
    Folder,
    String,
>)
    requires
        old(state).wf(),
    ensures
        final(state).wf(),
        final(state).is_locked == old(state).is_locked,
        final(state).sync_engine == old(state).sync_engine,
        old(state).is_locked ==> (r matches Err(m) && m@ == locked_message() && final(state).db@
            == old(state).db@),
        !old(state).is_locked ==> (match r {
            Ok(folder) => {
                &&& folder@ == (FolderView {
                    id: folder@.id,
                    name: request.name@,
                    synced_at: None,
                    local_updated_at: folder@.local_updated_at,
                })
                &&& old(state).db@.can_enqueue()
                &&& final(state).db@ == old(state).db@.insert_folder(
                    folder@,
                    folder@.local_updated_at,
                )
            },
            Err(m) => !old(state).db@.can_enqueue() && m@ == exhausted_message() && final(state).db@ == old(state).db@,
        }),
{
    if state.is_locked {
        return Err(locked());
    }
    let now = get_current_timestamp();
    let folder = Folder {
        id: generate_uuid(),
        name: request.name,
        synced_at: None,
        local_updated_at: now,
    };
    match state.db.insert_folder(&folder, folder.local_updated_at.as_str()) {
        Ok(_) => Ok(folder),
        Err(e) => Err(e.message()),
    }
}

/// Stores the folder of the request in place of the row with its id, edited
/// now and not yet synced, and queues the edit.
pub fn update_folder(state: &mut AppState, request: UpdateFolderRequest) -> (r: Result<
    Folder,
    String,
>)
    requires
        old(state).wf(),
    ensures
        final(state).wf(),
        final(state).is_locked == old(state).is_locked,
        final(state).sync_engine == old(state).sync_engine,
        old(state).is_locked ==> (r matches Err(m) && m@ == locked_message() && final(state).db@
            == old(state).db@),
        !old(state).is_locked ==> (match r {
            Ok(folder) => {
                &&& folder@ == (FolderView {
                    id: request.id@,
                    name: request.name@,
                    synced_at: None,
                    local_updated_at: folder@.local_updated_at,
                })
                &&& old(state).db@.can_enqueue()
                &&& final(state).db@ == old(state).db@.update_folder(
                    folder@,
                    folder@.local_updated_at,
                )
            },
            Err(m) => !old(state).db@.can_enqueue() && m@ == exhausted_message() && final(state).db@ == old(state).db@,
        }),
{
    if state.is_locked {
        return Err(locked());
    }
    let now = get_current_timestamp();
    let folder = Folder { id: request.id, name: request.name, synced_at: None, local_updated_at: now };
    match state.db.update_folder(&folder, folder.local_updated_at.as_str()) {
        Ok(_) => Ok(folder),
        Err(e) => Err(e.message()),
    }
}

/// Removes the folder; the records in it stay, in no folder.
pub fn delete_folder(state: &mut AppState, id: &str) -> (r: Result<(), String>)
    requires
        old(state).wf(),
    ensures
        final(state).wf(),
        final(state).is_locked == old(state).is_locked,
        final(state).sync_engine == old(state).sync_engine,
        old(state).is_locked ==> (r matches Err(m) && m@ == locked_message() && final(state).db@
            == old(state).db@),
        !old(state).is_locked ==> (match r {
            Ok(_) => old(state).db@.can_enqueue() && exists|now: Seq<char>|
                final(state).db@ == #[trigger] old(state).db@.delete_folder(id@, now),
            Err(m) => !old(state).db@.can_enqueue() && m@ == exhausted_message() && final(state).db@ == old(state).db@,
        }),
{
    if state.is_locked {
        return Err(locked());
    }
    let now = get_current_timestamp();
    match state.db.delete_folder(id, now.as_str()) {
        Ok(_) => Ok(()),
        Err(e) => Err(e.message()),
    }
}

/// Starts a sync cycle as of now, unless the vault is locked or a cycle is
/// under way.
pub fn sync_vault(state: &mut AppState) -> (r: Result<SyncStep, String>)
    requires
        old(state).wf(),
    ensures
        final(state).wf(),
        final(state).is_locked == old(state).is_locked,
        old(state).is_locked ==> (r matches Err(m) && m@ == locked_message() && final(state).db@
            == old(state).db@ && final(state).sync_engine@ == old(state).sync_engine@),
        !old(state).is_locked ==> (r matches Ok(step) && exists|now: MomentView|
            (Transition {
                engine: final(state).sync_engine@,
                store: final(state).db@,
                step: step@,
            }) == #[trigger] start(old(state).sync_engine@, old(state).db@, now)),
{
    if state.is_locked {
        return Err(locked());
    }
    let now = current_moment();
    let step = state.sync_engine.sync(&mut state.db, &now);
    Ok(step)
}

/// Goes on with the cycle that `sync_vault` or `login` began, given the
/// reply to the request that was handed out last.
pub fn resume_sync(state: &mut AppState, reply: HttpReply) -> (step: SyncStep)
    requires
        old(state).wf(),
    ensures
        final(state).wf(),
        final(state).is_locked == old(state).is_locked,
        exists|now: MomentView|
            (Transition {
                engine: final(state).sync_engine@,
                store: final(state).db@,
                step: step@,
            }) == #[trigger] advance(old(state).sync_engine@, old(state).db@, reply, now),
{
    let now = current_moment();
    state.sync_engine.resume(&mut state.db, reply, &now)
}

/// The status of the engine right now.
pub fn get_sync_status(state: &AppState) -> (r: Result<SyncStatus, String>)
    ensures
        r matches Ok(status) && status@ == report(state.sync_engine@.status, state.db@),
{
    Ok(state.sync_engine.get_status(&state.db))
}

/// Reads the answer to the connectivity probe and keeps the verdict.
pub fn check_connectivity(state: &mut AppState, reply: &HttpReply) -> (r: Result<bool, String>)
    ensures
        r matches Ok(online) && online == crate::remote::shows_online(*reply)
            && final(state).sync_engine@ == (crate::sync::SyncEngineView {
            status: crate::sync::SyncStatusView {
                is_online: online,
                ..old(state).sync_engine@.status
            },
            ..old(state).sync_engine@
        }),
        final(state).db == old(state).db,
        final(state).is_locked == old(state).is_locked,
        final(state).master_key_hash == old(state).master_key_hash,
{
    Ok(state.sync_engine.check_connectivity(reply))
}

/// The settings.
pub fn get_settings(state: &AppState) -> (r: Result<AppSettings, String>)
    ensures
        r matches Ok(s) && s@ == state.db@.settings,
{
    match state.db.get_settings() {
        Ok(s) => Ok(s),
        Err(e) => Err(e.message()),
    }
}

/// Replaces the settings.
pub fn save_settings(state: &mut AppState, settings: AppSettings) -> (r: Result<(), String>)
    requires
        old(state).wf(),
    ensures
        final(state).wf(),
        r is Ok,
        final(state).db@ == old(state).db@.save_settings(settings@),
{
    match state.db.save_settings(&settings) {
        Ok(_) => Ok(()),
        Err(e) => Err(e.message()),
    }
}

/// Whether the clipboard is to be emptied when the delay is over: only where
/// it still holds what was copied.
pub fn clipboard_holds_copy(current: &str, copied: &str) -> (r: bool)
    ensures
        r == (current@ == copied@),
{
    text_eq(current, copied)
}

} // verus!
