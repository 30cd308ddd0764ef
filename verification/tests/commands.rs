use birchvault::commands::{
    generate_uuid, get_current_timestamp,
    check_connectivity, check_locked, clipboard_holds_copy, create_folder, create_vault_item,
    delete_folder, delete_vault_item, get_folders, get_session, get_settings, get_sync_status,
    get_trashed_items, get_vault_item, get_vault_items, has_stored_session, is_vault_locked,
    lock_vault, login, login_request, logout, permanently_delete_vault_item, restore_vault_item,
    resume_sync, save_settings, sync_vault, unlock_vault, update_folder, update_vault_item,
    AppState, CreateFolderRequest, CreateVaultItemRequest, LoginRequest, UpdateFolderRequest,
    UpdateVaultItemRequest,
};
use birchvault::db::Database;
use birchvault::error::AppError;
use birchvault::records::{AppSettings, UserSession};
use birchvault::remote::{
    Expectation, HttpReply, HttpResponse, ResponseBody, SupabaseAuthResponse, SupabaseConfig,
    SupabaseError, SupabaseUser,
};
use birchvault::sync::SyncStep;

fn state() -> AppState {
    AppState::new(
        Database::new(),
        SupabaseConfig { url: "https://x.supabase.co".to_string(), anon_key: "anon".to_string() },
    )
}

fn unlocked() -> AppState {
    let mut s = state();
    s.is_locked = false;
    s
}

fn answered(status: u16, body: ResponseBody) -> HttpReply {
    HttpReply::Answered(HttpResponse { status, status_line: status.to_string(), text: String::new(), body })
}

fn login_req() -> LoginRequest {
    LoginRequest {
        email: "a@b.c".to_string(),
        password_hash: "ph".to_string(),
        master_key_hash: "mk".to_string(),
    }
}

fn grant() -> ResponseBody {
    ResponseBody::Auth(SupabaseAuthResponse {
        access_token: "A".to_string(),
        refresh_token: "R".to_string(),
        expires_at: 4102444800,
        user: SupabaseUser { id: "uid".to_string(), email: "a@b.c".to_string() },
    })
}

fn new_item() -> CreateVaultItemRequest {
    CreateVaultItemRequest {
        encrypted_data: "cipher".to_string(),
        item_type: "login".to_string(),
        folder_id: Some("f".to_string()),
        is_favorite: true,
    }
}

#[test]
fn check_locked_refuses_only_when_locked() {
    assert!(matches!(check_locked(true), Err(AppError::VaultLocked)));
    assert!(check_locked(false).is_ok());
}

#[test]
fn a_new_state_is_locked_without_key() {
    let s = state();
    assert_eq!(is_vault_locked(&s), Ok(true));
    assert!(s.master_key_hash.is_none());
    assert_eq!(has_stored_session(&s), Ok(false));
    assert!(get_session(&s).unwrap().is_none());
}

#[test]
fn a_locked_vault_refuses_every_data_operation() {
    let mut s = state();
    let locked = "Vault is locked".to_string();
    assert_eq!(get_vault_items(&s).unwrap_err(), locked);
    assert_eq!(get_trashed_items(&s).unwrap_err(), locked);
    assert_eq!(get_vault_item(&s, "a").unwrap_err(), locked);
    assert_eq!(create_vault_item(&mut s, new_item()).unwrap_err(), locked);
    let upd = UpdateVaultItemRequest { id: "a".to_string(), encrypted_data: "x".to_string(), item_type: "t".to_string(), folder_id: None, is_favorite: false };
    assert_eq!(update_vault_item(&mut s, upd).unwrap_err(), locked);
    assert_eq!(delete_vault_item(&mut s, "a").unwrap_err(), locked);
    assert_eq!(restore_vault_item(&mut s, "a").unwrap_err(), locked);
    assert_eq!(permanently_delete_vault_item(&mut s, "a").unwrap_err(), locked);
    assert_eq!(get_folders(&s).unwrap_err(), locked);
    assert_eq!(create_folder(&mut s, CreateFolderRequest { name: "n".to_string() }).unwrap_err(), locked);
    assert_eq!(update_folder(&mut s, UpdateFolderRequest { id: "f".to_string(), name: "n".to_string() }).unwrap_err(), locked);
    assert_eq!(delete_folder(&mut s, "f").unwrap_err(), locked);
    assert_eq!(sync_vault(&mut s).unwrap_err(), locked);
    assert_eq!(s.db.pending_count(), 0);
    // status and settings are not vault data
    assert!(get_sync_status(&s).is_ok());
    assert!(get_settings(&s).is_ok());
}

#[test]
fn create_item_gives_it_a_fresh_id_and_queues_it() {
    let mut s = unlocked();
    let a = create_vault_item(&mut s, new_item()).unwrap();
    let b = create_vault_item(&mut s, new_item()).unwrap();
    assert_ne!(a.id, b.id);
    assert_eq!(a.id.len(), 36);
    assert_eq!(a.encrypted_data, "cipher");
    assert_eq!(a.item_type, "login");
    assert_eq!(a.folder_id.as_deref(), Some("f"));
    assert!(a.is_favorite);
    assert_eq!((a.deleted_at.clone(), a.synced_at.clone(), a.server_updated_at.clone()), (None, None, None));
    let stored = get_vault_item(&s, &a.id).unwrap().unwrap();
    assert_eq!(stored.local_updated_at, a.local_updated_at);
    let pending = s.db.get_pending_sync_items().unwrap();
    assert_eq!(pending.len(), 2);
    assert_eq!(pending[0].operation, "create");
    assert_eq!(pending[0].record_id, a.id);
    assert_eq!(pending[0].created_at, a.local_updated_at);
    assert_eq!(get_vault_items(&s).unwrap().len(), 2);
}

#[test]
fn item_lifecycle_through_the_commands() {
    let mut s = unlocked();
    let a = create_vault_item(&mut s, new_item()).unwrap();
    let upd = UpdateVaultItemRequest { id: a.id.clone(), encrypted_data: "new".to_string(), item_type: "note".to_string(), folder_id: None, is_favorite: false };
    let u = update_vault_item(&mut s, upd).unwrap();
    assert_eq!(u.id, a.id);
    assert_eq!(get_vault_item(&s, &a.id).unwrap().unwrap().encrypted_data, "new");
    delete_vault_item(&mut s, &a.id).unwrap();
    assert!(get_vault_items(&s).unwrap().is_empty());
    assert_eq!(get_trashed_items(&s).unwrap().len(), 1);
    restore_vault_item(&mut s, &a.id).unwrap();
    assert_eq!(get_vault_items(&s).unwrap().len(), 1);
    assert!(get_trashed_items(&s).unwrap().is_empty());
    permanently_delete_vault_item(&mut s, &a.id).unwrap();
    assert!(get_vault_item(&s, &a.id).unwrap().is_none());
    assert_eq!(get_sync_status(&s).unwrap().pending_changes, 5);
}

#[test]
fn folder_lifecycle_through_the_commands() {
    let mut s = unlocked();
    let f = create_folder(&mut s, CreateFolderRequest { name: "Work".to_string() }).unwrap();
    assert_eq!(f.id.len(), 36);
    assert_eq!(f.synced_at, None);
    let r = update_folder(&mut s, UpdateFolderRequest { id: f.id.clone(), name: "Play".to_string() }).unwrap();
    assert_eq!(r.name, "Play");
    let all = get_folders(&s).unwrap();
    assert_eq!(all.len(), 1);
    assert_eq!(all[0].name, "Play");
    delete_folder(&mut s, &f.id).unwrap();
    assert!(get_folders(&s).unwrap().is_empty());
    assert_eq!(s.db.pending_count(), 3);
}

#[test]
fn login_request_carries_the_credentials() {
    let s = state();
    let r = login_request(&s, &login_req()).unwrap();
    assert_eq!(r.url, "https://x.supabase.co/auth/v1/token?grant_type=password");
    assert_eq!(r.body.as_deref(), Some("{\"email\":\"a@b.c\",\"password\":\"ph\"}"));
}

#[test]
fn login_stores_the_session_unlocks_and_starts_the_first_sync() {
    let mut s = state();
    let (answer, step) = login(&mut s, login_req(), answered(200, grant())).unwrap();
    assert_eq!(answer.user_id, "uid");
    assert_eq!(answer.email, "a@b.c");
    assert_eq!(is_vault_locked(&s), Ok(false));
    assert_eq!(s.master_key_hash.as_deref(), Some("mk"));
    assert_eq!(has_stored_session(&s), Ok(true));
    let saved = get_session(&s).unwrap().unwrap();
    assert_eq!(saved.access_token, "A");
    assert_eq!(saved.expires_at, "2100-01-01T00:00:00+00:00");
    match step {
        SyncStep::Call(r) => {
            assert_eq!(r.url, "https://x.supabase.co/rest/v1/folders?user_id=eq.uid");
            assert_eq!(r.expects, Expectation::Folders);
        }
        other => panic!("{:?}", other),
    }
    let step = resume_sync(&mut s, answered(200, ResponseBody::Folders(vec![])));
    assert!(matches!(step, SyncStep::Call(_)));
    let step = resume_sync(&mut s, answered(200, ResponseBody::VaultItems(vec![])));
    assert!(matches!(step, SyncStep::Finished(_)));
    assert!(get_session(&s).unwrap().unwrap().last_sync_at.is_some());
}

#[test]
fn refused_login_changes_nothing() {
    let mut s = state();
    let refused = answered(400, ResponseBody::Error(SupabaseError { message: "Invalid login credentials".to_string(), error: Some("invalid_grant".to_string()) }));
    let e = login(&mut s, login_req(), refused).unwrap_err();
    assert_eq!(e, "Authentication failed: Invalid login credentials");
    assert_eq!(is_vault_locked(&s), Ok(true));
    assert!(s.master_key_hash.is_none());
    assert_eq!(has_stored_session(&s), Ok(false));
    let e = login(&mut s, login_req(), HttpReply::Unreachable("offline".to_string())).unwrap_err();
    assert_eq!(e, "HTTP error: offline");
}

#[test]
fn logout_locks_and_wipes() {
    let mut s = unlocked();
    s.master_key_hash = Some("mk".to_string());
    create_vault_item(&mut s, new_item()).unwrap();
    create_folder(&mut s, CreateFolderRequest { name: "n".to_string() }).unwrap();
    s.db.save_session(&UserSession { user_id: "u".to_string(), email: "e".to_string(), access_token: "a".to_string(), refresh_token: "r".to_string(), expires_at: "x".to_string(), last_sync_at: None }).unwrap();
    logout(&mut s).unwrap();
    assert_eq!(is_vault_locked(&s), Ok(true));
    assert!(s.master_key_hash.is_none());
    assert_eq!(has_stored_session(&s), Ok(false));
    assert_eq!(s.db.pending_count(), 0);
    s.is_locked = false;
    assert!(get_vault_items(&s).unwrap().is_empty());
    assert!(get_trashed_items(&s).unwrap().is_empty());
    assert!(get_folders(&s).unwrap().is_empty());
}

#[test]
fn unlock_needs_a_session_and_the_stored_hash() {
    let mut s = state();
    assert_eq!(unlock_vault(&mut s, "mk".to_string(), None).unwrap_err(), "Authentication failed: No session found");
    s.db.save_session(&UserSession { user_id: "u".to_string(), email: "e".to_string(), access_token: "a".to_string(), refresh_token: "r".to_string(), expires_at: "x".to_string(), last_sync_at: None }).unwrap();
    assert_eq!(
        unlock_vault(&mut s, "wrong".to_string(), Some("mk".to_string())).unwrap_err(),
        "Authentication failed: Invalid master password"
    );
    assert_eq!(is_vault_locked(&s), Ok(true));
    let r = unlock_vault(&mut s, "mk".to_string(), Some("mk".to_string())).unwrap();
    assert_eq!((r.user_id.as_str(), r.email.as_str()), ("u", "e"));
    assert_eq!(is_vault_locked(&s), Ok(false));
    assert_eq!(s.master_key_hash.as_deref(), Some("mk"));
    lock_vault(&mut s).unwrap();
    assert_eq!(is_vault_locked(&s), Ok(true));
    assert!(s.master_key_hash.is_none());
    // nothing stored in the credential store: any hash unlocks
    unlock_vault(&mut s, "anything".to_string(), None).unwrap();
    assert_eq!(s.master_key_hash.as_deref(), Some("anything"));
}

#[test]
fn sync_vault_without_session_reports_the_failure_as_a_step() {
    let mut s = unlocked();
    match sync_vault(&mut s).unwrap() {
        SyncStep::Failed(AppError::Auth(m)) => assert_eq!(m, "Not logged in"),
        other => panic!("{:?}", other),
    }
}

#[test]
fn connectivity_and_settings_pass_through() {
    let mut s = state();
    assert_eq!(check_connectivity(&mut s, &answered(401, ResponseBody::Raw)), Ok(true));
    assert_eq!(check_connectivity(&mut s, &HttpReply::Unreachable("x".to_string())), Ok(false));
    assert!(!get_sync_status(&s).unwrap().is_online);
    let settings = AppSettings { auto_lock_minutes: 5, clipboard_clear_seconds: 10, start_minimized: true, start_on_boot: false, theme: "light".to_string() };
    save_settings(&mut s, settings).unwrap();
    let got = get_settings(&s).unwrap();
    assert_eq!((got.auto_lock_minutes, got.clipboard_clear_seconds, got.theme.as_str()), (5, 10, "light"));
}

#[test]
fn clipboard_is_cleared_only_if_it_still_holds_the_copy() {
    assert!(clipboard_holds_copy("secret", "secret"));
    assert!(!clipboard_holds_copy("other", "secret"));
    assert!(!clipboard_holds_copy("", "secret"));
}

#[test]
fn uuid_and_timestamp_have_their_shapes() {
    let a = generate_uuid();
    let b = generate_uuid();
    assert_ne!(a, b);
    assert_eq!(a.len(), 36);
    assert_eq!(a.matches('-').count(), 4);
    let t = get_current_timestamp();
    assert!(t.ends_with("+00:00"));
    assert_eq!(&t[4..5], "-");
    assert_eq!(&t[10..11], "T");
}
