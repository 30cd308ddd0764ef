use birchvault::clock::Moment;
use birchvault::db::Database;
use birchvault::error::AppError;
use birchvault::records::{Folder, UserSession, VaultItem};
use birchvault::remote::{
    Expectation, HttpMethod, HttpReply, HttpRequest, HttpResponse, ResponseBody,
    SupabaseAuthResponse, SupabaseConfig, SupabaseError, SupabaseFolder, SupabaseUser,
    SupabaseVaultItem,
};
use birchvault::records::SyncQueueItem;
use birchvault::sync::{describe_push_failure, SyncEngine, SyncStep};

const NOW: &str = "2024-06-01T12:00:00+00:00";
const NOW_SECS: i64 = 1717243200;

fn now() -> Moment {
    Moment { rfc3339: NOW.to_string(), epoch_seconds: NOW_SECS }
}

fn later() -> Moment {
    Moment { rfc3339: "2024-06-01T12:00:05+00:00".to_string(), epoch_seconds: NOW_SECS + 5 }
}

fn config() -> SupabaseConfig {
    SupabaseConfig { url: "https://x.supabase.co".to_string(), anon_key: "anon".to_string() }
}

fn session(expires_at: &str, last_sync_at: Option<&str>) -> UserSession {
    UserSession {
        user_id: "u1".to_string(),
        email: "a@b.c".to_string(),
        access_token: "tok".to_string(),
        refresh_token: "ref".to_string(),
        expires_at: expires_at.to_string(),
        last_sync_at: last_sync_at.map(|s| s.to_string()),
    }
}

fn item(id: &str) -> VaultItem {
    VaultItem {
        id: id.to_string(),
        encrypted_data: "cipher".to_string(),
        item_type: "login".to_string(),
        folder_id: None,
        is_favorite: true,
        deleted_at: None,
        synced_at: None,
        local_updated_at: "2024-05-01T00:00:00+00:00".to_string(),
        server_updated_at: None,
    }
}

fn answered(status: u16, body: ResponseBody) -> HttpReply {
    HttpReply::Answered(HttpResponse {
        status,
        status_line: format!("{} X", status),
        text: String::new(),
        body,
    })
}

fn ok() -> HttpReply {
    answered(201, ResponseBody::Raw)
}

fn remote_item(id: &str, updated: &str) -> SupabaseVaultItem {
    SupabaseVaultItem {
        id: id.to_string(),
        user_id: "u1".to_string(),
        encrypted_data: format!("data-{}", id),
        item_type: "note".to_string(),
        folder_id: Some("f1".to_string()),
        deleted_at: None,
        created_at: "2024-01-01T00:00:00+00:00".to_string(),
        updated_at: updated.to_string(),
    }
}

fn remote_folder(id: &str, name: &str, updated: &str) -> SupabaseFolder {
    SupabaseFolder {
        id: id.to_string(),
        user_id: "u1".to_string(),
        name: name.to_string(),
        created_at: "2024-01-01T00:00:00+00:00".to_string(),
        updated_at: updated.to_string(),
    }
}

fn headers(r: &HttpRequest) -> Vec<(String, String)> {
    r.headers.iter().map(|h| (h.name.clone(), h.value.clone())).collect()
}

fn pair(a: &str, b: &str) -> (String, String) {
    (a.to_string(), b.to_string())
}

fn call(step: SyncStep) -> HttpRequest {
    match step {
        SyncStep::Call(r) => r,
        other => panic!("expected a call, got {:?}", other),
    }
}

fn logged_in(expires_at: &str, last_sync_at: Option<&str>) -> (SyncEngine, Database) {
    let mut db = Database::new();
    db.save_session(&session(expires_at, last_sync_at)).unwrap();
    (SyncEngine::new(config()), db)
}

const FAR: &str = "2030-01-01T00:00:00+00:00";

#[test]
fn new_engine_is_idle_and_online() {
    let engine = SyncEngine::new(config());
    let db = Database::new();
    let s = engine.get_status(&db);
    assert!(!s.is_syncing);
    assert!(s.is_online);
    assert_eq!(s.last_sync_at, None);
    assert_eq!(s.pending_changes, 0);
}

#[test]
fn status_counts_the_outbox() {
    let engine = SyncEngine::new(config());
    let mut db = Database::new();
    db.insert_vault_item(&item("a"), NOW).unwrap();
    db.soft_delete_vault_item("a", NOW).unwrap();
    assert_eq!(engine.get_status(&db).pending_changes, 2);
}

#[test]
fn sync_without_session_is_an_authentication_error() {
    let mut engine = SyncEngine::new(config());
    let mut db = Database::new();
    match engine.sync(&mut db, &now()) {
        SyncStep::Failed(AppError::Auth(m)) => assert_eq!(m, "Not logged in"),
        other => panic!("{:?}", other),
    }
    assert!(!engine.get_status(&db).is_syncing);
    assert_eq!(engine.get_status(&db).last_sync_at, None);
}

#[test]
fn sync_with_unreadable_expiry_fails() {
    let (mut engine, mut db) = logged_in("tomorrow", None);
    match engine.sync(&mut db, &now()) {
        SyncStep::Failed(AppError::Auth(m)) => assert_eq!(m, "Invalid token expiry"),
        other => panic!("{:?}", other),
    }
    assert!(!engine.get_status(&db).is_syncing);
}

#[test]
fn token_is_refreshed_when_it_expires_within_the_window() {
    // exactly 300 seconds left: due
    let (mut engine, mut db) = logged_in("2024-06-01T12:05:00+00:00", Some("2024-05-31T00:00:00+00:00"));
    let r = call(engine.sync(&mut db, &now()));
    assert_eq!(r.method, HttpMethod::Post);
    assert_eq!(r.url, "https://x.supabase.co/auth/v1/token?grant_type=refresh_token");
    assert_eq!(r.body.as_deref(), Some("{\"refresh_token\":\"ref\"}"));
    assert_eq!(headers(&r), vec![pair("apikey", "anon"), pair("Content-Type", "application/json")]);
    assert_eq!(r.expects, Expectation::Auth);
    assert!(engine.get_status(&db).is_syncing);

    let grant = SupabaseAuthResponse {
        access_token: "tok2".to_string(),
        refresh_token: "ref2".to_string(),
        expires_at: 1717246800,
        user: SupabaseUser { id: "u1".to_string(), email: "a@b.c".to_string() },
    };
    let r = call(engine.resume(&mut db, answered(200, ResponseBody::Auth(grant)), &now()));
    // nothing to push: the pull begins, with the renewed token
    assert_eq!(r.method, HttpMethod::Get);
    assert_eq!(r.url, "https://x.supabase.co/rest/v1/folders?user_id=eq.u1&updated_at=gt.2024-05-31T00:00:00+00:00");
    assert_eq!(headers(&r), vec![pair("apikey", "anon"), pair("Authorization", "Bearer tok2")]);
    let saved = db.get_session().unwrap().unwrap();
    assert_eq!(saved.access_token, "tok2");
    assert_eq!(saved.refresh_token, "ref2");
    assert_eq!(saved.expires_at, "2024-06-01T13:00:00+00:00");
    assert_eq!(saved.last_sync_at.as_deref(), Some("2024-05-31T00:00:00+00:00"));
}

#[test]
fn token_is_left_alone_when_more_than_the_window_is_left() {
    // 301 seconds left: not due
    let (mut engine, mut db) = logged_in("2024-06-01T12:05:01+00:00", None);
    let r = call(engine.sync(&mut db, &now()));
    assert_eq!(r.method, HttpMethod::Get);
    assert_eq!(r.url, "https://x.supabase.co/rest/v1/folders?user_id=eq.u1");
    assert_eq!(r.expects, Expectation::Folders);
    assert_eq!(db.get_session().unwrap().unwrap().access_token, "tok");
}

#[test]
fn expiry_in_another_time_zone_is_compared_as_an_instant() {
    // 14:04 at +02:00 is 12:04 UTC: 240 seconds left
    let (mut engine, mut db) = logged_in("2024-06-01T14:04:00+02:00", None);
    let r = call(engine.sync(&mut db, &now()));
    assert_eq!(r.url, "https://x.supabase.co/auth/v1/token?grant_type=refresh_token");
}

#[test]
fn failed_refresh_aborts_the_cycle() {
    let (mut engine, mut db) = logged_in("2024-06-01T12:00:00+00:00", None);
    db.insert_vault_item(&item("a"), NOW).unwrap();
    call(engine.sync(&mut db, &now()));
    match engine.resume(&mut db, answered(400, ResponseBody::Raw), &now()) {
        SyncStep::Failed(AppError::Auth(m)) => assert_eq!(m, "Failed to refresh token"),
        other => panic!("{:?}", other),
    }
    let s = engine.get_status(&db);
    assert!(!s.is_syncing);
    assert_eq!(s.pending_changes, 1);
    assert_eq!(db.get_session().unwrap().unwrap().access_token, "tok");
}

#[test]
fn refresh_without_answer_is_a_transport_error() {
    let (mut engine, mut db) = logged_in("2024-06-01T12:00:00+00:00", None);
    call(engine.sync(&mut db, &now()));
    match engine.resume(&mut db, HttpReply::Unreachable("dns".to_string()), &now()) {
        SyncStep::Failed(AppError::Http(m)) => assert_eq!(m, "dns"),
        other => panic!("{:?}", other),
    }
}

#[test]
fn second_sync_while_one_is_in_flight_starts_nothing() {
    let (mut engine, mut db) = logged_in(FAR, None);
    db.insert_vault_item(&item("a"), NOW).unwrap();
    let first = call(engine.sync(&mut db, &now()));
    assert_eq!(first.method, HttpMethod::Post);
    for _ in 0..2 {
        match engine.sync(&mut db, &later()) {
            SyncStep::Busy(s) => {
                assert!(s.is_syncing);
                assert_eq!(s.pending_changes, 1);
            }
            other => panic!("{:?}", other),
        }
    }
    // the cycle in flight goes on where it was
    let next = call(engine.resume(&mut db, ok(), &now()));
    assert_eq!(next.url, "https://x.supabase.co/rest/v1/folders?user_id=eq.u1");
}

#[test]
fn push_sends_the_row_as_it_is_now() {
    let (mut engine, mut db) = logged_in(FAR, None);
    db.insert_vault_item(&item("a"), NOW).unwrap();
    let mut edit = item("a");
    edit.encrypted_data = "newer".to_string();
    edit.folder_id = Some("f\"1".to_string());
    db.update_vault_item(&edit, NOW).unwrap();
    db.soft_delete_vault_item("a", "2024-06-01T11:00:00+00:00").unwrap();
    let r = call(engine.sync(&mut db, &now()));
    assert_eq!(r.method, HttpMethod::Post);
    assert_eq!(r.url, "https://x.supabase.co/rest/v1/vault_items");
    assert_eq!(
        r.body.as_deref(),
        Some("{\"id\":\"a\",\"user_id\":\"u1\",\"encrypted_data\":\"newer\",\"type\":\"login\",\"folder_id\":\"f\\\"1\",\"deleted_at\":\"2024-06-01T11:00:00+00:00\"}")
    );
    assert_eq!(
        headers(&r),
        vec![
            pair("apikey", "anon"),
            pair("Authorization", "Bearer tok"),
            pair("Content-Type", "application/json"),
            pair("Prefer", "resolution=merge-duplicates"),
        ]
    );
    assert_eq!(r.expects, Expectation::Nothing);
}

#[test]
fn push_sends_folders_and_deletions() {
    let (mut engine, mut db) = logged_in(FAR, None);
    let f = Folder { id: "f1".to_string(), name: "Work".to_string(), synced_at: None, local_updated_at: NOW.to_string() };
    db.insert_folder(&f, NOW).unwrap();
    db.insert_vault_item(&item("a"), NOW).unwrap();
    db.permanently_delete_vault_item("a", NOW).unwrap();
    db.delete_folder("f2", NOW).unwrap();

    let r = call(engine.sync(&mut db, &now()));
    assert_eq!(r.url, "https://x.supabase.co/rest/v1/folders");
    assert_eq!(r.body.as_deref(), Some("{\"id\":\"f1\",\"user_id\":\"u1\",\"name\":\"Work\"}"));

    // the create entry of "a" needs no call any more; its delete entry does
    let r = call(engine.resume(&mut db, ok(), &now()));
    assert_eq!(r.method, HttpMethod::Delete);
    assert_eq!(r.url, "https://x.supabase.co/rest/v1/vault_items?id=eq.a");
    assert_eq!(r.body, None);
    assert_eq!(headers(&r), vec![pair("apikey", "anon"), pair("Authorization", "Bearer tok")]);
    assert_eq!(db.get_folder("f1").unwrap().synced_at.as_deref(), Some(NOW));
    assert_eq!(db.pending_count(), 2);

    let r = call(engine.resume(&mut db, answered(204, ResponseBody::Raw), &now()));
    assert_eq!(r.url, "https://x.supabase.co/rest/v1/folders?id=eq.f2");
    let r = call(engine.resume(&mut db, ok(), &now()));
    assert_eq!(r.method, HttpMethod::Get);
    assert_eq!(db.pending_count(), 0);
}

#[test]
fn entries_that_need_no_call_are_acknowledged_on_the_spot() {
    let (mut engine, mut db) = logged_in(FAR, None);
    // edits of rows that are gone by the time of the push
    db.soft_delete_vault_item("ghost", NOW).unwrap();
    db.restore_vault_item("ghost", NOW).unwrap();
    db.insert_folder(&Folder { id: "f".to_string(), name: "x".to_string(), synced_at: None, local_updated_at: NOW.to_string() }, NOW).unwrap();
    db.delete_folder("f", NOW).unwrap();
    assert_eq!(db.pending_count(), 4);
    let r = call(engine.sync(&mut db, &now()));
    // only the deletion of the folder is something to tell the server
    assert_eq!(r.method, HttpMethod::Delete);
    assert_eq!(r.url, "https://x.supabase.co/rest/v1/folders?id=eq.f");
    assert_eq!(db.pending_count(), 1);
    let r = call(engine.resume(&mut db, ok(), &now()));
    assert_eq!(r.method, HttpMethod::Get);
    assert_eq!(db.pending_count(), 0);
}

// create record A offline, the push of A fails: the entry stays, last_sync_at unchanged
#[test]
fn failed_push_keeps_the_entry_and_the_cycle_goes_on() {
    let (mut engine, mut db) = logged_in(FAR, Some("2024-05-31T00:00:00+00:00"));
    db.insert_vault_item(&item("a"), NOW).unwrap();
    assert_eq!(db.pending_count(), 1);
    call(engine.sync(&mut db, &now()));
    let r = call(engine.resume(&mut db, HttpReply::Unreachable("connection reset".to_string()), &now()));
    // the batch is not aborted: the pull begins
    assert_eq!(r.expects, Expectation::Folders);
    assert_eq!(db.pending_count(), 1);
    assert_eq!(db.get_vault_item("a").unwrap().unwrap().synced_at, None);
    // the pull fails too: the cycle is reported as failed
    match engine.resume(&mut db, HttpReply::Unreachable("connection reset".to_string()), &now()) {
        SyncStep::Failed(AppError::Http(m)) => assert_eq!(m, "connection reset"),
        other => panic!("{:?}", other),
    }
    let s = engine.get_status(&db);
    assert!(!s.is_syncing);
    assert_eq!(s.pending_changes, 1);
    assert_eq!(s.last_sync_at, None);
    assert_eq!(db.get_session().unwrap().unwrap().last_sync_at.as_deref(), Some("2024-05-31T00:00:00+00:00"));
}

#[test]
fn a_refused_push_keeps_the_entry_too() {
    let (mut engine, mut db) = logged_in(FAR, None);
    db.insert_vault_item(&item("a"), NOW).unwrap();
    db.insert_vault_item(&item("b"), NOW).unwrap();
    call(engine.sync(&mut db, &now()));
    let r = call(engine.resume(&mut db, answered(500, ResponseBody::Raw), &now()));
    assert_eq!(r.body.as_deref().map(|b| b.contains("\"id\":\"b\"")), Some(true));
    call(engine.resume(&mut db, ok(), &now()));
    let left: Vec<String> = db.get_pending_sync_items().unwrap().into_iter().map(|e| e.record_id).collect();
    assert_eq!(left, vec!["a"]);
    assert!(db.get_vault_item("b").unwrap().unwrap().synced_at.is_some());
    assert!(db.get_vault_item("a").unwrap().unwrap().synced_at.is_none());
}

// create records A, B offline, sync succeeds
#[test]
fn successful_cycle_empties_the_outbox_and_stamps_everything() {
    let (mut engine, mut db) = logged_in(FAR, None);
    db.insert_vault_item(&item("a"), NOW).unwrap();
    db.insert_vault_item(&item("b"), NOW).unwrap();
    call(engine.sync(&mut db, &now()));
    call(engine.resume(&mut db, ok(), &now()));
    let r = call(engine.resume(&mut db, ok(), &now()));
    assert_eq!(r.expects, Expectation::Folders);
    let r = call(engine.resume(&mut db, answered(200, ResponseBody::Folders(vec![])), &now()));
    assert_eq!(r.url, "https://x.supabase.co/rest/v1/vault_items?user_id=eq.u1");
    assert_eq!(r.expects, Expectation::VaultItems);
    match engine.resume(&mut db, answered(200, ResponseBody::VaultItems(vec![])), &later()) {
        SyncStep::Finished(s) => {
            assert!(!s.is_syncing);
            assert_eq!(s.pending_changes, 0);
            assert_eq!(s.last_sync_at.as_deref(), Some("2024-06-01T12:00:05+00:00"));
        }
        other => panic!("{:?}", other),
    }
    assert_eq!(db.pending_count(), 0);
    assert_eq!(db.get_vault_item("a").unwrap().unwrap().synced_at.as_deref(), Some(NOW));
    assert_eq!(db.get_vault_item("b").unwrap().unwrap().synced_at.as_deref(), Some(NOW));
    assert_eq!(db.get_session().unwrap().unwrap().last_sync_at.as_deref(), Some("2024-06-01T12:00:05+00:00"));
    assert!(db.get_unsynced_items().unwrap().is_empty());
    // idle again: the next call starts a new cycle, filtered by the time of this one
    let r = call(engine.sync(&mut db, &later()));
    assert_eq!(r.url, "https://x.supabase.co/rest/v1/folders?user_id=eq.u1&updated_at=gt.2024-06-01T12:00:05+00:00");
}

#[test]
fn pull_maps_server_rows_into_local_shape() {
    let (mut engine, mut db) = logged_in(FAR, None);
    call(engine.sync(&mut db, &now()));
    call(engine.resume(&mut db, answered(200, ResponseBody::Folders(vec![remote_folder("f1", "Work", "2024-05-05T00:00:00+00:00")])), &now()));
    let mut gone = remote_item("i2", "2024-05-07T00:00:00+00:00");
    gone.deleted_at = Some("2024-05-07T00:00:00+00:00".to_string());
    gone.folder_id = None;
    match engine.resume(&mut db, answered(200, ResponseBody::VaultItems(vec![remote_item("i1", "2024-05-06T00:00:00+00:00"), gone])), &now()) {
        SyncStep::Finished(_) => {}
        other => panic!("{:?}", other),
    }
    let f = db.get_folder("f1").unwrap();
    assert_eq!(f.name, "Work");
    assert_eq!(f.synced_at.as_deref(), Some(NOW));
    assert_eq!(f.local_updated_at, "2024-05-05T00:00:00+00:00");
    let i = db.get_vault_item("i1").unwrap().unwrap();
    assert_eq!(i.encrypted_data, "data-i1");
    assert_eq!(i.item_type, "note");
    assert_eq!(i.folder_id.as_deref(), Some("f1"));
    assert!(!i.is_favorite);
    assert_eq!(i.deleted_at, None);
    assert_eq!(i.synced_at.as_deref(), Some(NOW));
    assert_eq!(i.local_updated_at, "2024-05-06T00:00:00+00:00");
    assert_eq!(i.server_updated_at.as_deref(), Some("2024-05-06T00:00:00+00:00"));
    let trash = db.get_trashed_items().unwrap();
    assert_eq!(trash.len(), 1);
    assert_eq!(trash[0].id, "i2");
    assert_eq!(db.pending_count(), 0);
}

#[test]
fn pull_overwrites_a_local_row_with_the_servers() {
    let (mut engine, mut db) = logged_in(FAR, None);
    db.insert_vault_item(&item("i1"), NOW).unwrap();
    db.clear_sync_queue().unwrap();
    call(engine.sync(&mut db, &now()));
    call(engine.resume(&mut db, answered(200, ResponseBody::Folders(vec![])), &now()));
    engine.resume(&mut db, answered(200, ResponseBody::VaultItems(vec![remote_item("i1", "2024-05-06T00:00:00+00:00")])), &now());
    let all = db.get_all_vault_items().unwrap();
    assert_eq!(all.len(), 1);
    assert_eq!(all[0].encrypted_data, "data-i1");
}

#[test]
fn failed_pull_keeps_what_was_pushed() {
    let (mut engine, mut db) = logged_in(FAR, None);
    db.insert_vault_item(&item("a"), NOW).unwrap();
    call(engine.sync(&mut db, &now()));
    call(engine.resume(&mut db, ok(), &now()));
    match engine.resume(&mut db, answered(503, ResponseBody::Raw), &now()) {
        SyncStep::Failed(AppError::Sync(m)) => assert_eq!(m, "Failed to pull folders"),
        other => panic!("{:?}", other),
    }
    assert_eq!(db.pending_count(), 0);
    assert!(db.get_vault_item("a").unwrap().unwrap().synced_at.is_some());
    assert_eq!(db.get_session().unwrap().unwrap().last_sync_at, None);
    assert!(!engine.get_status(&db).is_syncing);
    assert_eq!(engine.get_status(&db).last_sync_at, None);
}

#[test]
fn failed_item_pull_keeps_the_folders_that_came() {
    let (mut engine, mut db) = logged_in(FAR, None);
    call(engine.sync(&mut db, &now()));
    call(engine.resume(&mut db, answered(200, ResponseBody::Folders(vec![remote_folder("f1", "Work", NOW)])), &now()));
    match engine.resume(&mut db, answered(500, ResponseBody::Raw), &now()) {
        SyncStep::Failed(AppError::Sync(m)) => assert_eq!(m, "Failed to pull vault items"),
        other => panic!("{:?}", other),
    }
    assert!(db.get_folder("f1").is_some());
}

#[test]
fn malformed_and_unexpected_bodies_fail_the_pull() {
    let (mut engine, mut db) = logged_in(FAR, None);
    call(engine.sync(&mut db, &now()));
    match engine.resume(&mut db, answered(200, ResponseBody::Malformed("expected `[`".to_string())), &now()) {
        SyncStep::Failed(AppError::Sync(m)) => assert_eq!(m, "expected `[`"),
        other => panic!("{:?}", other),
    }
    call(engine.sync(&mut db, &now()));
    match engine.resume(&mut db, answered(200, ResponseBody::VaultItems(vec![])), &now()) {
        SyncStep::Failed(AppError::Sync(m)) => assert_eq!(m, "unexpected response body"),
        other => panic!("{:?}", other),
    }
}

#[test]
fn resume_without_a_cycle_changes_nothing() {
    let (mut engine, mut db) = logged_in(FAR, None);
    db.insert_vault_item(&item("a"), NOW).unwrap();
    match engine.resume(&mut db, ok(), &now()) {
        SyncStep::Failed(AppError::InvalidOperation(m)) => assert_eq!(m, "no sync in progress"),
        other => panic!("{:?}", other),
    }
    assert_eq!(db.pending_count(), 1);
    assert!(!engine.get_status(&db).is_syncing);
}

// initial sync after login with server holding one folder and two items
#[test]
fn initial_sync_fetches_everything_and_drops_the_outbox() {
    let mut engine = SyncEngine::new(config());
    let mut db = Database::new();
    let s = session(FAR, None);
    db.save_session(&s).unwrap();
    db.insert_vault_item(&item("stale"), NOW).unwrap();
    db.permanently_delete_vault_item("stale", NOW).unwrap();
    assert_eq!(db.pending_count(), 2);
    let r = call(engine.initial_sync(&mut db, &s));
    assert_eq!(r.url, "https://x.supabase.co/rest/v1/folders?user_id=eq.u1");
    assert!(engine.get_status(&db).is_syncing);
    let r = call(engine.resume(&mut db, answered(200, ResponseBody::Folders(vec![remote_folder("f1", "Work", NOW)])), &now()));
    assert_eq!(r.url, "https://x.supabase.co/rest/v1/vault_items?user_id=eq.u1");
    let items = vec![remote_item("i1", "2024-05-06T00:00:00+00:00"), remote_item("i2", "2024-05-07T00:00:00+00:00")];
    match engine.resume(&mut db, answered(200, ResponseBody::VaultItems(items)), &later()) {
        SyncStep::Finished(s) => {
            assert_eq!(s.pending_changes, 0);
            assert!(!s.is_syncing);
        }
        other => panic!("{:?}", other),
    }
    let ids: Vec<String> = db.get_all_vault_items().unwrap().into_iter().map(|i| i.id).collect();
    assert_eq!(ids, vec!["i2", "i1"]);
    assert!(db.get_trashed_items().unwrap().is_empty());
    assert_eq!(db.get_all_folders().unwrap().len(), 1);
    assert_eq!(db.pending_count(), 0);
    assert_eq!(db.get_session().unwrap().unwrap().last_sync_at.as_deref(), Some("2024-06-01T12:00:05+00:00"));
}

#[test]
fn initial_sync_is_turned_away_while_a_cycle_is_in_flight() {
    let (mut engine, mut db) = logged_in(FAR, None);
    call(engine.sync(&mut db, &now()));
    match engine.initial_sync(&mut db, &session(FAR, None)) {
        SyncStep::Busy(s) => assert!(s.is_syncing),
        other => panic!("{:?}", other),
    }
}

#[test]
fn failed_initial_sync_keeps_the_outbox() {
    let (mut engine, mut db) = logged_in(FAR, None);
    db.insert_vault_item(&item("a"), NOW).unwrap();
    call(engine.initial_sync(&mut db, &session(FAR, None)));
    match engine.resume(&mut db, answered(401, ResponseBody::Raw), &now()) {
        SyncStep::Failed(AppError::Sync(_)) => {}
        other => panic!("{:?}", other),
    }
    assert_eq!(db.pending_count(), 1);
    assert_eq!(db.get_session().unwrap().unwrap().last_sync_at, None);
}

#[test]
fn logout_wipes_the_store() {
    let (engine, mut db) = logged_in(FAR, None);
    db.insert_vault_item(&item("a"), NOW).unwrap();
    db.insert_folder(&Folder { id: "f".to_string(), name: "n".to_string(), synced_at: None, local_updated_at: NOW.to_string() }, NOW).unwrap();
    engine.logout(&mut db).unwrap();
    assert!(db.get_all_vault_items().unwrap().is_empty());
    assert!(db.get_all_folders().unwrap().is_empty());
    assert_eq!(db.pending_count(), 0);
    assert!(db.get_session().unwrap().is_none());
}

#[test]
fn connectivity_probe_counts_success_and_401_as_online() {
    let mut engine = SyncEngine::new(config());
    let db = Database::new();
    let r = engine.check_connectivity_request();
    assert_eq!(r.method, HttpMethod::Head);
    assert_eq!(r.url, "https://x.supabase.co/rest/v1/");
    assert_eq!(headers(&r), vec![pair("apikey", "anon")]);
    assert_eq!(r.body, None);
    for (reply, want) in [
        (answered(200, ResponseBody::Raw), true),
        (answered(299, ResponseBody::Raw), true),
        (answered(401, ResponseBody::Raw), true),
        (answered(199, ResponseBody::Raw), false),
        (answered(300, ResponseBody::Raw), false),
        (answered(403, ResponseBody::Raw), false),
        (answered(500, ResponseBody::Raw), false),
        (HttpReply::Unreachable("x".to_string()), false),
    ] {
        assert_eq!(engine.check_connectivity(&reply), want);
        assert_eq!(engine.get_status(&db).is_online, want);
        assert!(!engine.get_status(&db).is_syncing);
    }
}

#[test]
fn authenticate_builds_the_password_request() {
    let engine = SyncEngine::new(config());
    let r = engine.authenticate_request("a@b.c", "h\"ash").unwrap();
    assert_eq!(r.method, HttpMethod::Post);
    assert_eq!(r.url, "https://x.supabase.co/auth/v1/token?grant_type=password");
    assert_eq!(r.body.as_deref(), Some("{\"email\":\"a@b.c\",\"password\":\"h\\\"ash\"}"));
    assert_eq!(headers(&r), vec![pair("apikey", "anon"), pair("Content-Type", "application/json")]);
    assert_eq!(r.expects, Expectation::Auth);
}

fn grant(expires_at: i64) -> ResponseBody {
    ResponseBody::Auth(SupabaseAuthResponse {
        access_token: "A".to_string(),
        refresh_token: "R".to_string(),
        expires_at,
        user: SupabaseUser { id: "uid".to_string(), email: "e@x.y".to_string() },
    })
}

#[test]
fn authenticate_opens_a_session_that_never_synced() {
    let engine = SyncEngine::new(config());
    let mut db = Database::new();
    let s = engine.authenticate(&mut db, answered(200, grant(1700000000)), &now()).unwrap();
    assert_eq!(s.user_id, "uid");
    assert_eq!(s.email, "e@x.y");
    assert_eq!(s.access_token, "A");
    assert_eq!(s.refresh_token, "R");
    assert_eq!(s.expires_at, "2023-11-14T22:13:20+00:00");
    assert_eq!(s.last_sync_at, None);
    let stored = db.get_session().unwrap().unwrap();
    assert_eq!(stored.access_token, "A");
    assert_eq!(stored.user_id, "uid");
}

#[test]
fn expiry_outside_the_calendar_falls_back_to_now() {
    let engine = SyncEngine::new(config());
    let s = engine.authenticate(&mut Database::new(), answered(200, grant(i64::MAX)), &now()).unwrap();
    assert_eq!(s.expires_at, NOW);
}

#[test]
fn authentication_failure_carries_the_servers_message() {
    let engine = SyncEngine::new(config());
    let mut db = Database::new();
    let refused = answered(400, ResponseBody::Error(SupabaseError { message: "Invalid login credentials".to_string(), error: None }));
    match engine.authenticate(&mut db, refused, &now()) {
        Err(AppError::Auth(m)) => assert_eq!(m, "Invalid login credentials"),
        other => panic!("{:?}", other),
    }
    match engine.authenticate(&mut db, answered(500, ResponseBody::Raw), &now()) {
        Err(AppError::Auth(m)) => assert_eq!(m, "Authentication failed"),
        other => panic!("{:?}", other),
    }
    match engine.authenticate(&mut db, HttpReply::Unreachable("timeout".to_string()), &now()) {
        Err(AppError::Http(m)) => assert_eq!(m, "timeout"),
        other => panic!("{:?}", other),
    }
    match engine.authenticate(&mut db, answered(200, ResponseBody::Malformed("eof".to_string())), &now()) {
        Err(AppError::Sync(m)) => assert_eq!(m, "eof"),
        other => panic!("{:?}", other),
    }
    match engine.authenticate(&mut db, answered(200, ResponseBody::Raw), &now()) {
        Err(AppError::Sync(m)) => assert_eq!(m, "unexpected response body"),
        other => panic!("{:?}", other),
    }
    assert!(db.get_session().unwrap().is_none());
}

#[test]
fn refresh_token_keeps_the_time_of_last_sync() {
    let engine = SyncEngine::new(config());
    let old = session(FAR, Some("2024-05-31T00:00:00+00:00"));
    let r = engine.refresh_token_request(&old).unwrap();
    assert_eq!(r.body.as_deref(), Some("{\"refresh_token\":\"ref\"}"));
    let s = engine.refresh_token(&old, answered(200, grant(0)), &now()).unwrap();
    assert_eq!(s.expires_at, "1970-01-01T00:00:00+00:00");
    assert_eq!(s.last_sync_at.as_deref(), Some("2024-05-31T00:00:00+00:00"));
    assert_eq!(s.access_token, "A");
}

fn queued(operation: &str, table: &str, id: &str) -> SyncQueueItem {
    SyncQueueItem {
        id: 1,
        operation: operation.to_string(),
        table_name: table.to_string(),
        record_id: id.to_string(),
        payload: None,
        created_at: NOW.to_string(),
    }
}

#[test]
fn push_failures_are_named_after_what_was_pushed() {
    let refused = HttpReply::Answered(HttpResponse {
        status: 409,
        status_line: "409 Conflict".to_string(),
        text: "{\"message\":\"duplicate\"}".to_string(),
        body: ResponseBody::Raw,
    });
    match describe_push_failure(&queued("create", "vault_items", "a"), &refused) {
        Some(AppError::Sync(m)) => assert_eq!(m, "Failed to sync vault item: 409 Conflict - {\"message\":\"duplicate\"}"),
        other => panic!("{:?}", other),
    }
    match describe_push_failure(&queued("update", "folders", "f"), &refused) {
        Some(AppError::Sync(m)) => assert_eq!(m, "Failed to sync folder"),
        other => panic!("{:?}", other),
    }
    match describe_push_failure(&queued("delete", "vault_items", "a"), &refused) {
        Some(AppError::Sync(m)) => assert_eq!(m, "Failed to delete vault_items a"),
        other => panic!("{:?}", other),
    }
    match describe_push_failure(&queued("create", "vault_items", "a"), &HttpReply::Unreachable("reset".to_string())) {
        Some(AppError::Http(m)) => assert_eq!(m, "reset"),
        other => panic!("{:?}", other),
    }
    assert!(describe_push_failure(&queued("create", "vault_items", "a"), &ok()).is_none());
}

#[test]
fn the_engine_tells_which_entry_is_in_flight() {
    let (mut engine, mut db) = logged_in(FAR, None);
    assert!(engine.pushing().is_none());
    db.insert_vault_item(&item("a"), NOW).unwrap();
    db.insert_vault_item(&item("b"), NOW).unwrap();
    call(engine.sync(&mut db, &now()));
    assert_eq!(engine.pushing().unwrap().record_id, "a");
    call(engine.resume(&mut db, ok(), &now()));
    assert_eq!(engine.pushing().unwrap().record_id, "b");
    call(engine.resume(&mut db, ok(), &now()));
    assert!(engine.pushing().is_none());
}

#[test]
fn a_cancelled_cycle_leaves_the_store_and_frees_the_engine() {
    let (mut engine, mut db) = logged_in(FAR, Some("2024-05-31T00:00:00+00:00"));
    assert!(!engine.cancel());
    db.insert_vault_item(&item("a"), NOW).unwrap();
    db.insert_vault_item(&item("b"), NOW).unwrap();
    call(engine.sync(&mut db, &now()));
    call(engine.resume(&mut db, ok(), &now()));
    assert!(engine.cancel());
    let s = engine.get_status(&db);
    assert!(!s.is_syncing);
    assert_eq!(s.last_sync_at, None);
    assert_eq!(s.pending_changes, 1);
    assert!(db.get_vault_item("a").unwrap().unwrap().synced_at.is_some());
    assert_eq!(db.get_session().unwrap().unwrap().last_sync_at.as_deref(), Some("2024-05-31T00:00:00+00:00"));
    // a late reply finds no cycle
    assert!(matches!(engine.resume(&mut db, ok(), &now()), SyncStep::Failed(AppError::InvalidOperation(_))));
    // and the next call for a sync starts one
    let r = call(engine.sync(&mut db, &now()));
    assert!(r.body.unwrap().contains("\"id\":\"b\""));
}
