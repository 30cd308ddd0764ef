//! The rows that the local store keeps, each with its mathematical view.

use vstd::prelude::*;
use vstd::string::*;
use crate::text::{clone_opt, opt_text};

verus! {

/// An encrypted vault record. A row whose `deleted_at` is set is a tombstone:
/// it lives in the trash until it is restored or purged.
#[derive(Debug)]
pub struct VaultItem {
    pub id: String,
    pub encrypted_data: String,
    pub item_type: String,
    pub folder_id: Option<String>,
    pub is_favorite: bool,
    pub deleted_at: Option<String>,
    pub synced_at: Option<String>,
    pub local_updated_at: String,
    pub server_updated_at: Option<String>,
}

pub struct VaultItemView {
    pub id: Seq<char>,
    pub encrypted_data: Seq<char>,
    pub item_type: Seq<char>,
    pub folder_id: Option<Seq<char>>,
    pub is_favorite: bool,
    pub deleted_at: Option<Seq<char>>,
    pub synced_at: Option<Seq<char>>,
    pub local_updated_at: Seq<char>,
    pub server_updated_at: Option<Seq<char>>,
}

impl View for VaultItem {
    type V = VaultItemView;

    open spec fn view(&self) -> VaultItemView {
        VaultItemView {
            id: self.id@,
            encrypted_data: self.encrypted_data@,
            item_type: self.item_type@,
            folder_id: opt_text(self.folder_id),
            is_favorite: self.is_favorite,
            deleted_at: opt_text(self.deleted_at),
            synced_at: opt_text(self.synced_at),
            local_updated_at: self.local_updated_at@,
            server_updated_at: opt_text(self.server_updated_at),
        }
    }
}

impl Clone for VaultItem {
    fn clone(&self) -> (r: Self)
        ensures
            r@ == self@,
    {
        VaultItem {
            id: self.id.clone(),
            encrypted_data: self.encrypted_data.clone(),
            item_type: self.item_type.clone(),
            folder_id: clone_opt(&self.folder_id),
            is_favorite: self.is_favorite,
            deleted_at: clone_opt(&self.deleted_at),
            synced_at: clone_opt(&self.synced_at),
            local_updated_at: self.local_updated_at.clone(),
            server_updated_at: clone_opt(&self.server_updated_at),
        }
    }
}

/// A folder that groups vault records.
#[derive(Debug)]
pub struct Folder {
    pub id: String,
    pub name: String,
    pub synced_at: Option<String>,
    pub local_updated_at: String,
}

pub struct FolderView {
    pub id: Seq<char>,
    pub name: Seq<char>,
    pub synced_at: Option<Seq<char>>,
    pub local_updated_at: Seq<char>,
}

impl View for Folder {
    type V = FolderView;

    open spec fn view(&self) -> FolderView {
        FolderView {
            id: self.id@,
            name: self.name@,
            synced_at: opt_text(self.synced_at),
            local_updated_at: self.local_updated_at@,
        }
    }
}

impl Clone for Folder {
    fn clone(&self) -> (r: Self)
        ensures
            r@ == self@,
    {
        Folder {
            id: self.id.clone(),
            name: self.name.clone(),
            synced_at: clone_opt(&self.synced_at),
            local_updated_at: self.local_updated_at.clone(),
        }
    }
}

/// One pending local mutation that the server has not acknowledged yet.
#[derive(Debug)]
pub struct SyncQueueItem {
    pub id: i64,
    pub operation: String,
    pub table_name: String,
    pub record_id: String,
    pub payload: Option<String>,
    pub created_at: String,
}

pub struct SyncQueueItemView {
    pub id: int,
    pub operation: Seq<char>,
    pub table_name: Seq<char>,
    pub record_id: Seq<char>,
    pub payload: Option<Seq<char>>,
    pub created_at: Seq<char>,
}

impl View for SyncQueueItem {
    type V = SyncQueueItemView;

    open spec fn view(&self) -> SyncQueueItemView {
        SyncQueueItemView {
            id: self.id as int,
            operation: self.operation@,
            table_name: self.table_name@,
            record_id: self.record_id@,
            payload: opt_text(self.payload),
            created_at: self.created_at@,
        }
    }
}

impl Clone for SyncQueueItem {
    fn clone(&self) -> (r: Self)
        ensures
            r@ == self@,
    {
        SyncQueueItem {
            id: self.id,
            operation: self.operation.clone(),
            table_name: self.table_name.clone(),
            record_id: self.record_id.clone(),
            payload: clone_opt(&self.payload),
            created_at: self.created_at.clone(),
        }
    }
}

/// The single authentication row of this device.
#[derive(Debug)]
pub struct UserSession {
    pub user_id: String,
    pub email: String,
    pub access_token: String,
    pub refresh_token: String,
    pub expires_at: String,
    pub last_sync_at: Option<String>,
}

pub struct UserSessionView {
    pub user_id: Seq<char>,
    pub email: Seq<char>,
    pub access_token: Seq<char>,
    pub refresh_token: Seq<char>,
    pub expires_at: Seq<char>,
    pub last_sync_at: Option<Seq<char>>,
}

impl View for UserSession {
    type V = UserSessionView;

    open spec fn view(&self) -> UserSessionView {
        UserSessionView {
            user_id: self.user_id@,
            email: self.email@,
            access_token: self.access_token@,
            refresh_token: self.refresh_token@,
            expires_at: self.expires_at@,
            last_sync_at: opt_text(self.last_sync_at),
        }
    }
}

impl Clone for UserSession {
    fn clone(&self) -> (r: Self)
        ensures
            r@ == self@,
    {
        UserSession {
            user_id: self.user_id.clone(),
            email: self.email.clone(),
            access_token: self.access_token.clone(),
            refresh_token: self.refresh_token.clone(),
            expires_at: self.expires_at.clone(),
            last_sync_at: clone_opt(&self.last_sync_at),
        }
    }
}

/// Preferences of the desktop application.
#[derive(Debug)]
pub struct AppSettings {
    pub auto_lock_minutes: i32,
    pub clipboard_clear_seconds: i32,
    pub start_minimized: bool,
    pub start_on_boot: bool,
    pub theme: String,
}

pub struct AppSettingsView {
    pub auto_lock_minutes: int,
    pub clipboard_clear_seconds: int,
    pub start_minimized: bool,
    pub start_on_boot: bool,
    pub theme: Seq<char>,
}

impl View for AppSettings {
    type V = AppSettingsView;

    open spec fn view(&self) -> AppSettingsView {
        AppSettingsView {
            auto_lock_minutes: self.auto_lock_minutes as int,
            clipboard_clear_seconds: self.clipboard_clear_seconds as int,
            start_minimized: self.start_minimized,
            start_on_boot: self.start_on_boot,
            theme: self.theme@,
        }
    }
}

impl Clone for AppSettings {
    fn clone(&self) -> (r: Self)
        ensures
            r@ == self@,
    {
        AppSettings {
            auto_lock_minutes: self.auto_lock_minutes,
            clipboard_clear_seconds: self.clipboard_clear_seconds,
            start_minimized: self.start_minimized,
            start_on_boot: self.start_on_boot,
            theme: self.theme.clone(),
        }
    }
}

/// The settings of a fresh installation.
pub open spec fn default_settings() -> AppSettingsView {
    AppSettingsView {
        auto_lock_minutes: 15,
        clipboard_clear_seconds: 30,
        start_minimized: false,
        start_on_boot: false,
        theme: "system"@,
    }
}

impl Default for AppSettings {
    fn default() -> (r: Self)
        ensures
            r@ == default_settings(),
    {
        AppSettings {
            auto_lock_minutes: 15,
            clipboard_clear_seconds: 30,
            start_minimized: false,
            start_on_boot: false,
            theme: String::from_str("system"),
        }
    }
}

/// The views of a list of vault records, in the same order.
pub open spec fn item_views(v: Seq<VaultItem>) -> Seq<VaultItemView> {
    Seq::new(v.len(), |i: int| v[i]@)
}

/// The views of a list of folders, in the same order.
pub open spec fn folder_views(v: Seq<Folder>) -> Seq<FolderView> {
    Seq::new(v.len(), |i: int| v[i]@)
}

/// The views of a list of outbox entries, in the same order.
pub open spec fn entry_views(v: Seq<SyncQueueItem>) -> Seq<SyncQueueItemView> {
    Seq::new(v.len(), |i: int| v[i]@)
}

/// The view of an optional session.
pub open spec fn session_view(s: Option<UserSession>) -> Option<UserSessionView> {
    match s {
        Some(x) => Some(x@),
        None => None,
    }
}

} // verus!
