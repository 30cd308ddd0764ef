//! The sync engine: one cycle renews the session where it is about to lapse,
//! pushes the outbox entry by entry, then pulls what the server changed.
//!
//! The engine never touches the network. It hands out the next request, and
//! is handed the reply; everything it decides in between is in this file.

use vstd::prelude::*;
use vstd::string::*;
use crate::clock::{
    format_rfc3339, is_refresh_due, parse_rfc3339, refresh_due, rfc3339_seconds, rfc3339_text,
    Moment, MomentView,
};
use crate::db::Database;
use crate::error::{AppError, AppErrorView};
use crate::model::StoreState;
use crate::records::{
    entry_views, SyncQueueItem, SyncQueueItemView, UserSession, UserSessionView,
};
use crate::remote::{
    build_connectivity_request, build_delete_request, build_folder_upsert_request,
    build_item_upsert_request, build_password_request, build_pull_request, build_renewal_request,
    connectivity_request, delete_request, folder_upsert_request, is_success, item_upsert_request,
    local_folders, local_items, password_request, pull_request, renewal_request, shows_online,
    status_is_success, to_local_folders, to_local_items, ConfigView, Expectation, HttpReply,
    HttpRequest, HttpRequestView, ResponseBody, SupabaseAuthResponse, SupabaseConfig,
    SupabaseFolder, SupabaseVaultItem,
};
use crate::text::{clone_opt, opt_text, text_eq};

verus! {

/// What the engine reports of itself.
#[derive(Debug)]
pub struct SyncStatus {
    /// Whether a cycle is under way.
    pub is_syncing: bool,
    /// When the last cycle ended well, if one ever did since the engine was
    /// made.
    pub last_sync_at: Option<String>,
    /// How many entries wait in the outbox.
    pub pending_changes: usize,
    /// What the last probe said of the backend.
    pub is_online: bool,
}

pub struct SyncStatusView {
    pub is_syncing: bool,
    pub last_sync_at: Option<Seq<char>>,
    pub pending_changes: int,
    pub is_online: bool,
}

impl View for SyncStatus {
    type V = SyncStatusView;

    open spec fn view(&self) -> SyncStatusView {
        SyncStatusView {
            is_syncing: self.is_syncing,
            last_sync_at: opt_text(self.last_sync_at),
            pending_changes: self.pending_changes as int,
            is_online: self.is_online,
        }
    }
}

impl Clone for SyncStatus {
    fn clone(&self) -> (r: Self)
        ensures
            r@ == self@,
    {
        SyncStatus {
            is_syncing: self.is_syncing,
            last_sync_at: clone_opt(&self.last_sync_at),
            pending_changes: self.pending_changes,
            is_online: self.is_online,
        }
    }
}

/// Where an unfinished cycle stands: which answer it waits for.
#[derive(Debug)]
pub enum SyncStage {
    /// No cycle is under way.
    Idle,
    /// The answer to the renewal of the session's tokens.
    Refreshing { session: UserSession },
    /// The answer to the push of entry `next` of `pending`.
    Pushing { session: UserSession, pending: Vec<SyncQueueItem>, next: usize },
    /// The folders that changed after `since`.
    PullingFolders { session: UserSession, since: Option<String>, initial: bool },
    /// The vault records that changed after `since`.
    PullingItems { session: UserSession, since: Option<String>, initial: bool },
}

pub enum SyncStageView {
    Idle,
    Refreshing { session: UserSessionView },
    Pushing { session: UserSessionView, pending: Seq<SyncQueueItemView>, next: int },
    PullingFolders { session: UserSessionView, since: Option<Seq<char>>, initial: bool },
    PullingItems { session: UserSessionView, since: Option<Seq<char>>, initial: bool },
}

impl View for SyncStage {
    type V = SyncStageView;

    open spec fn view(&self) -> SyncStageView {
        match self {
            SyncStage::Idle => SyncStageView::Idle,
            SyncStage::Refreshing { session } => SyncStageView::Refreshing { session: session@ },
            SyncStage::Pushing { session, pending, next } => SyncStageView::Pushing {
                session: session@,
                pending: entry_views(pending@),
                next: *next as int,
            },
            SyncStage::PullingFolders { session, since, initial } => SyncStageView::PullingFolders {
                session: session@,
                since: opt_text(*since),
                initial: *initial,
            },
            SyncStage::PullingItems { session, since, initial } => SyncStageView::PullingItems {
                session: session@,
                since: opt_text(*since),
                initial: *initial,
            },
        }
    }
}

/// What the engine asks of its driver next, or how the cycle ended.
#[derive(Debug)]
pub enum SyncStep {
    /// Send this request and hand the reply to `resume`.
    Call(HttpRequest),
    /// The cycle ended well; the status after it.
    Finished(SyncStatus),
    /// The cycle was given up.
    Failed(AppError),
    /// A cycle was under way already, so none was started; the status of the
    /// one in flight.
    Busy(SyncStatus),
}

pub enum SyncStepView {
    Call(HttpRequestView),
    Finished(SyncStatusView),
    Failed(AppErrorView),
    Busy(SyncStatusView),
}

impl View for SyncStep {
    type V = SyncStepView;

    open spec fn view(&self) -> SyncStepView {
        match self {
            SyncStep::Call(request) => SyncStepView::Call(request@),
            SyncStep::Finished(status) => SyncStepView::Finished(status@),
            SyncStep::Failed(e) => SyncStepView::Failed(e@),
            SyncStep::Busy(status) => SyncStepView::Busy(status@),
        }
    }
}

/// The engine as its contracts see it.
pub struct SyncEngineView {
    pub config: ConfigView,
    pub status: SyncStatusView,
    pub stage: SyncStageView,
}

impl SyncEngineView {
    /// What holds of the engine between any two calls: the status says
    /// "syncing" exactly while a cycle is under way, and a push in flight is
    /// the push of an entry of its list.
    pub open spec fn wf(self) -> bool {
        &&& self.status.is_syncing == !(self.stage is Idle)
        &&& (self.stage matches SyncStageView::Pushing { pending, next, .. } ==> 0 <= next
            < pending.len())
    }
}

/// An engine that has never synced: idle, and taking the backend to be
/// reachable.
pub open spec fn fresh_engine(config: ConfigView) -> SyncEngineView {
    SyncEngineView {
        config,
        status: SyncStatusView {
            is_syncing: false,
            last_sync_at: None,
            pending_changes: 0,
            is_online: true,
        },
        stage: SyncStageView::Idle,
    }
}

/// An engine, a store and the step that led to them.
pub struct Transition {
    pub engine: SyncEngineView,
    pub store: StoreState,
    pub step: SyncStepView,
}

/// What is done about one outbox entry.
pub enum PushPlan {
    /// The server must hear of it.
    Send(HttpRequestView),
    /// Nothing is left to tell the server: the entry counts as acknowledged.
    Acknowledge,
    /// The request cannot be written: the entry waits for the next cycle.
    Skip,
}

/// The status as it is reported: the engine's own, with the number of
/// entries that wait in the outbox right now.
pub open spec fn report(status: SyncStatusView, store: StoreState) -> SyncStatusView {
    SyncStatusView { pending_changes: store.queue.len() as int, ..status }
}

/// The cycle is given up: the engine is idle again, the store stays as it is.
pub open spec fn fail(e: SyncEngineView, s: StoreState, err: AppErrorView) -> Transition {
    Transition {
        engine: SyncEngineView {
            status: SyncStatusView { is_syncing: false, ..e.status },
            stage: SyncStageView::Idle,
            ..e
        },
        store: s,
        step: SyncStepView::Failed(err),
    }
}

/// A full cycle ends well: its time is recorded in the status and on the
/// session row.
pub open spec fn finish_cycle(e: SyncEngineView, s: StoreState, now: Seq<char>) -> Transition {
    let status = SyncStatusView { is_syncing: false, last_sync_at: Some(now), ..e.status };
    let store = s.update_last_sync(now);
    Transition {
        engine: SyncEngineView { status, stage: SyncStageView::Idle, ..e },
        store,
        step: SyncStepView::Finished(report(status, store)),
    }
}

/// The first sync of a new session ends well: whatever waited in the outbox
/// is dropped, since the full fetch supersedes it, and the time is recorded
/// on the session row.
pub open spec fn finish_initial(e: SyncEngineView, s: StoreState, now: Seq<char>) -> Transition {
    let status = SyncStatusView { is_syncing: false, ..e.status };
    let store = s.clear_queue().update_last_sync(now);
    Transition {
        engine: SyncEngineView { status, stage: SyncStageView::Idle, ..e },
        store,
        step: SyncStepView::Finished(report(status, store)),
    }
}

/// The pull begins: the folders are asked for first.
pub open spec fn start_pull(
    e: SyncEngineView,
    s: StoreState,
    session: UserSessionView,
    since: Option<Seq<char>>,
    initial: bool,
) -> Transition {
    Transition {
        engine: SyncEngineView {
            stage: SyncStageView::PullingFolders { session, since, initial },
            ..e
        },
        store: s,
        step: SyncStepView::Call(
            pull_request(e.config, session, "folders"@, since, Expectation::Folders),
        ),
    }
}

/// What an outbox entry asks for, given the store as it is now: a created or
/// edited row is sent as it stands now, if it still exists; a deletion is
/// always sent; anything else needs no call.
pub open spec fn push_plan(
    config: ConfigView,
    s: StoreState,
    session: UserSessionView,
    entry: SyncQueueItemView,
) -> PushPlan {
    if entry.operation == "create"@ || entry.operation == "update"@ {
        if entry.table_name == "vault_items"@ {
            match s.item(entry.record_id) {
                Some(item) => match item_upsert_request(config, session, item) {
                    Some(request) => PushPlan::Send(request),
                    None => PushPlan::Skip,
                },
                None => PushPlan::Acknowledge,
            }
        } else if entry.table_name == "folders"@ {
            match s.folder(entry.record_id) {
                Some(folder) => match folder_upsert_request(config, session, folder) {
                    Some(request) => PushPlan::Send(request),
                    None => PushPlan::Skip,
                },
                None => PushPlan::Acknowledge,
            }
        } else {
            PushPlan::Acknowledge
        }
    } else if entry.operation == "delete"@ {
        PushPlan::Send(delete_request(config, session, entry.table_name, entry.record_id))
    } else {
        PushPlan::Acknowledge
    }
}

/// The store after the server acknowledged an entry: the entry leaves the
/// outbox and its row is marked as synced.
pub open spec fn acknowledge(s: StoreState, entry: SyncQueueItemView, now: Seq<char>)
    -> StoreState {
    s.dequeue(entry.id).mark_synced(entry.table_name, entry.record_id, now)
}

/// The push goes on from entry `next`: entries that need no call are
/// acknowledged on the spot, the first that needs one is sent, and after the
/// last the pull begins.
pub open spec fn push_from(
    e: SyncEngineView,
    s: StoreState,
    session: UserSessionView,
    pending: Seq<SyncQueueItemView>,
    next: int,
    now: Seq<char>,
) -> Transition
    decreases pending.len() - next,
{
    if next < 0 || next >= pending.len() {
        start_pull(e, s, session, session.last_sync_at, false)
    } else {
        match push_plan(e.config, s, session, pending[next]) {
            PushPlan::Send(request) => Transition {
                engine: SyncEngineView {
                    stage: SyncStageView::Pushing { session, pending, next },
                    ..e
                },
                store: s,
                step: SyncStepView::Call(request),
            },
            PushPlan::Acknowledge => push_from(
                e,
                acknowledge(s, pending[next], now),
                session,
                pending,
                next + 1,
                now,
            ),
            PushPlan::Skip => push_from(e, s, session, pending, next + 1, now),
        }
    }
}

/// The time at which tokens lapse, written down: as `chrono` writes the
/// server's number, or the present time where the number is outside the
/// calendar.
pub open spec fn expiry_text(expires_at: i64, now: Seq<char>) -> Seq<char> {
    match rfc3339_text(expires_at as int) {
        Some(t) => t,
        None => now,
    }
}

/// The session that an authentication answer opens.
pub open spec fn granted_session(a: SupabaseAuthResponse, now: Seq<char>) -> UserSessionView {
    UserSessionView {
        user_id: a.user.id@,
        email: a.user.email@,
        access_token: a.access_token@,
        refresh_token: a.refresh_token@,
        expires_at: expiry_text(a.expires_at, now),
        last_sync_at: None,
    }
}

/// The session after a renewal: new tokens, the old time of last sync.
pub open spec fn renewed_session(old_session: UserSessionView, a: SupabaseAuthResponse, now: Seq<char>)
    -> UserSessionView {
    UserSessionView { last_sync_at: old_session.last_sync_at, ..granted_session(a, now) }
}

/// The complaint about an answer whose body is not what was asked for.
pub open spec fn unexpected_body() -> AppErrorView {
    AppErrorView::Sync("unexpected response body"@)
}

/// How an attempt to log in ends: a refusal carries the server's message.
pub open spec fn auth_outcome(reply: HttpReply, now: Seq<char>) -> Result<
    UserSessionView,
    AppErrorView,
> {
    match reply {
        HttpReply::Unreachable(m) => Err(AppErrorView::Http(m@)),
        HttpReply::Answered(response) => if !is_success(response.status) {
            match response.body {
                ResponseBody::Error(e) => Err(AppErrorView::Auth(e.message@)),
                _ => Err(AppErrorView::Auth("Authentication failed"@)),
            }
        } else {
            match response.body {
                ResponseBody::Auth(a) => Ok(granted_session(a, now)),
                ResponseBody::Malformed(m) => Err(AppErrorView::Sync(m@)),
                _ => Err(unexpected_body()),
            }
        },
    }
}

/// How a renewal ends.
pub open spec fn refresh_outcome(session: UserSessionView, reply: HttpReply, now: Seq<char>)
    -> Result<UserSessionView, AppErrorView> {
    match reply {
        HttpReply::Unreachable(m) => Err(AppErrorView::Http(m@)),
        HttpReply::Answered(response) => if !is_success(response.status) {
            Err(AppErrorView::Auth("Failed to refresh token"@))
        } else {
            match response.body {
                ResponseBody::Auth(a) => Ok(renewed_session(session, a, now)),
                ResponseBody::Malformed(m) => Err(AppErrorView::Sync(m@)),
                _ => Err(unexpected_body()),
            }
        },
    }
}

/// Whether the server took what was pushed.
pub open spec fn push_succeeded(reply: HttpReply) -> bool {
    reply matches HttpReply::Answered(response) && is_success(response.status)
}

/// How the fetch of the folders ends.
pub open spec fn folders_outcome(reply: HttpReply) -> Result<Seq<SupabaseFolder>, AppErrorView> {
    match reply {
        HttpReply::Unreachable(m) => Err(AppErrorView::Http(m@)),
        HttpReply::Answered(response) => if !is_success(response.status) {
            Err(AppErrorView::Sync("Failed to pull folders"@))
        } else {
            match response.body {
                ResponseBody::Folders(list) => Ok(list@),
                ResponseBody::Malformed(m) => Err(AppErrorView::Sync(m@)),
                _ => Err(unexpected_body()),
            }
        },
    }
}

/// How the fetch of the vault records ends.
pub open spec fn items_outcome(reply: HttpReply) -> Result<Seq<SupabaseVaultItem>, AppErrorView> {
    match reply {
        HttpReply::Unreachable(m) => Err(AppErrorView::Http(m@)),
        HttpReply::Answered(response) => if !is_success(response.status) {
            Err(AppErrorView::Sync("Failed to pull vault items"@))
        } else {
            match response.body {
                ResponseBody::VaultItems(list) => Ok(list@),
                ResponseBody::Malformed(m) => Err(AppErrorView::Sync(m@)),
                _ => Err(unexpected_body()),
            }
        },
    }
}

/// The complaint about tokens that cannot be written into a request.
pub open spec fn unwritable_request() -> AppErrorView {
    AppErrorView::Serialization("request body cannot be written"@)
}

/// A cycle begins on an idle engine: without a session it fails at once;
/// with tokens about to lapse it asks for new ones; otherwise it goes
/// straight to the push.
pub open spec fn begin(e: SyncEngineView, s: StoreState, now: MomentView) -> Transition {
    let e1 = SyncEngineView { status: SyncStatusView { is_syncing: true, ..e.status }, ..e };
    match s.session {
        None => fail(e1, s, AppErrorView::Auth("Not logged in"@)),
        Some(session) => match rfc3339_seconds(session.expires_at) {
            None => fail(e1, s, AppErrorView::Auth("Invalid token expiry"@)),
            Some(expires_at) => if refresh_due(expires_at, now.seconds) {
                match renewal_request(e.config, session.refresh_token) {
                    Some(request) => Transition {
                        engine: SyncEngineView {
                            stage: SyncStageView::Refreshing { session },
                            ..e1
                        },
                        store: s,
                        step: SyncStepView::Call(request),
                    },
                    None => fail(e1, s, unwritable_request()),
                }
            } else {
                push_from(e1, s, session, s.queue, 0, now.text)
            },
        },
    }
}

/// What a call for a sync does: with a cycle under way nothing, and the
/// caller sees the status of that cycle; otherwise a cycle begins.
pub open spec fn start(e: SyncEngineView, s: StoreState, now: MomentView) -> Transition {
    if e.status.is_syncing {
        Transition { engine: e, store: s, step: SyncStepView::Busy(report(e.status, s)) }
    } else {
        begin(e, s, now)
    }
}

/// The first sync of a new session begins: a full fetch, nothing pushed.
pub open spec fn begin_initial(e: SyncEngineView, s: StoreState, session: UserSessionView)
    -> Transition {
    let e1 = SyncEngineView { status: SyncStatusView { is_syncing: true, ..e.status }, ..e };
    start_pull(e1, s, session, None, true)
}

/// The complaint about a reply that no request preceded.
pub open spec fn nothing_in_flight() -> AppErrorView {
    AppErrorView::InvalidOperation("no sync in progress"@)
}

/// The cycle goes on with the reply to the request that was handed out last.
pub open spec fn advance(e: SyncEngineView, s: StoreState, reply: HttpReply, now: MomentView)
    -> Transition {
    let stage = e.stage;
    let e = SyncEngineView { stage: SyncStageView::Idle, ..e };
    match stage {
        SyncStageView::Idle => Transition {
            engine: e,
            store: s,
            step: SyncStepView::Failed(nothing_in_flight()),
        },
        SyncStageView::Refreshing { session } => match refresh_outcome(session, reply, now.text) {
            Err(err) => fail(e, s, err),
            Ok(renewed) => push_from(
                e,
                s.save_session(renewed),
                renewed,
                s.queue,
                0,
                now.text,
            ),
        },
        SyncStageView::Pushing { session, pending, next } => {
            let s1 = if push_succeeded(reply) && 0 <= next < pending.len() {
                acknowledge(s, pending[next], now.text)
            } else {
                s
            };
            push_from(e, s1, session, pending, next + 1, now.text)
        },
        SyncStageView::PullingFolders { session, since, initial } => match folders_outcome(reply) {
            Err(err) => fail(e, s, err),
            Ok(list) => Transition {
                engine: SyncEngineView {
                    stage: SyncStageView::PullingItems { session, since, initial },
                    ..e
                },
                store: s.bulk_upsert_folders(local_folders(list, now.text)),
                step: SyncStepView::Call(
                    pull_request(e.config, session, "vault_items"@, since, Expectation::VaultItems),
                ),
            },
        },
        SyncStageView::PullingItems { session, since, initial } => match items_outcome(reply) {
            Err(err) => fail(e, s, err),
            Ok(list) => {
                let s1 = s.bulk_upsert_items(local_items(list, now.text));
                if initial {
                    finish_initial(e, s1, now.text)
                } else {
                    finish_cycle(e, s1, now.text)
                }
            },
        },
    }
}


/// The sync engine of one device.
pub struct SyncEngine {
    config: SupabaseConfig,
    status: SyncStatus,
    stage: SyncStage,
}

impl View for SyncEngine {
    type V = SyncEngineView;

    closed spec fn view(&self) -> SyncEngineView {
        SyncEngineView { config: self.config@, status: self.status@, stage: self.stage@ }
    }
}

/// What is done about one outbox entry, with the request ready to be sent.
enum PushDecision {
    Send(HttpRequest),
    Acknowledge,
    Skip,
}

impl View for PushDecision {
    type V = PushPlan;

    closed spec fn view(&self) -> PushPlan {
        match self {
            PushDecision::Send(request) => PushPlan::Send(request@),
            PushDecision::Acknowledge => PushPlan::Acknowledge,
            PushDecision::Skip => PushPlan::Skip,
        }
    }
}

/// The plan for an entry that records a created or edited row.
fn push_upsert(config: &SupabaseConfig, db: &Database, session: &UserSession, table: &str, id: &str)
    -> (d: PushDecision)
    ensures
        d@ == (if table@ == "vault_items"@ {
            match db@.item(id@) {
                Some(item) => match item_upsert_request(config@, session@, item) {
                    Some(request) => PushPlan::Send(request),
                    None => PushPlan::Skip,
                },
                None => PushPlan::Acknowledge,
            }
        } else if table@ == "folders"@ {
            match db@.folder(id@) {
                Some(folder) => match folder_upsert_request(config@, session@, folder) {
                    Some(request) => PushPlan::Send(request),
                    None => PushPlan::Skip,
                },
                None => PushPlan::Acknowledge,
            }
        } else {
            PushPlan::Acknowledge
        }),
{
    if text_eq(table, "vault_items") {
        match db.get_vault_item(id) {
            Ok(Some(item)) => match build_item_upsert_request(config, session, &item) {
                Some(request) => PushDecision::Send(request),
                None => PushDecision::Skip,
            },
            _ => PushDecision::Acknowledge,
        }
    } else if text_eq(table, "folders") {
        match db.get_folder(id) {
            Some(folder) => match build_folder_upsert_request(config, session, &folder) {
                Some(request) => PushDecision::Send(request),
                None => PushDecision::Skip,
            },
            None => PushDecision::Acknowledge,
        }
    } else {
        PushDecision::Acknowledge
    }
}

/// The request that tells the server of a deleted row.
fn push_delete(config: &SupabaseConfig, session: &UserSession, table: &str, id: &str) -> (r:
    HttpRequest)
    ensures
        r@ == delete_request(config@, session@, table@, id@),
{
    build_delete_request(config, session, table, id)
}

/// Decides `push_plan` for one entry.
fn plan_push(config: &SupabaseConfig, db: &Database, session: &UserSession, entry: &SyncQueueItem)
    -> (d: PushDecision)
    ensures
        d@ == push_plan(config@, db@, session@, entry@),
{
    let op = entry.operation.as_str();
    if text_eq(op, "create") || text_eq(op, "update") {
        push_upsert(config, db, session, entry.table_name.as_str(), entry.record_id.as_str())
    } else if text_eq(op, "delete") {
        PushDecision::Send(
            push_delete(config, session, entry.table_name.as_str(), entry.record_id.as_str()),
        )
    } else {
        PushDecision::Acknowledge
    }
}

/// Builds the session that an authentication answer opens.
fn session_from(a: SupabaseAuthResponse, last_sync_at: Option<String>, now: &str) -> (r:
    UserSession)
    ensures
        r@ == (UserSessionView { last_sync_at: opt_text(last_sync_at), ..granted_session(a, now@) }),
{
    let expires_at = match format_rfc3339(a.expires_at) {
        Some(t) => t,
        None => now.to_owned(),
    };
    UserSession {
        user_id: a.user.id,
        email: a.user.email,
        access_token: a.access_token,
        refresh_token: a.refresh_token,
        expires_at,
        last_sync_at,
    }
}

fn unexpected() -> (e: AppError)
    ensures
        e@ == unexpected_body(),
{
    AppError::Sync(String::from_str("unexpected response body"))
}

impl SyncEngine {
    /// What holds of the engine between any two calls.
    pub open spec fn wf(&self) -> bool {
        self@.wf()
    }

    /// An idle engine that has never synced and takes the backend to be
    /// reachable.
    pub fn new(config: SupabaseConfig) -> (e: SyncEngine)
        ensures
            e.wf(),
            e@ == fresh_engine(config@),
    {
        SyncEngine {
            config,
            status: SyncStatus {
                is_syncing: false,
                last_sync_at: None,
                pending_changes: 0,
                is_online: true,
            },
            stage: SyncStage::Idle,
        }
    }

    /// The status right now: the number of pending changes is the length of
    /// the outbox.
    pub fn get_status(&self, db: &Database) -> (r: SyncStatus)
        ensures
            r@ == report(self@.status, db@),
    {
        SyncStatus {
            is_syncing: self.status.is_syncing,
            last_sync_at: clone_opt(&self.status.last_sync_at),
            pending_changes: db.pending_count(),
            is_online: self.status.is_online,
        }
    }

    /// The probe to send before `check_connectivity`.
    pub fn check_connectivity_request(&self) -> (r: HttpRequest)
        ensures
            r@ == connectivity_request(self@.config),
    {
        build_connectivity_request(&self.config)
    }

    /// Reads the answer to the probe: the backend counts as reachable where
    /// it answered with success or asked for credentials. The verdict is
    /// kept in the status; nothing else changes.
    pub fn check_connectivity(&mut self, reply: &HttpReply) -> (online: bool)
        ensures
            online == shows_online(*reply),
            final(self)@ == (SyncEngineView {
                status: SyncStatusView { is_online: online, ..old(self)@.status },
                ..old(self)@
            }),
    {
        let online = match reply {
            HttpReply::Answered(response) => status_is_success(response.status) || response.status
                == 401,
            HttpReply::Unreachable(_) => false,
        };
        self.status.is_online = online;
        online
    }

    /// The request that exchanges credentials for tokens.
    pub fn authenticate_request(&self, email: &str, password_hash: &str) -> (r: Result<
        HttpRequest,
        AppError,
    >)
        ensures
            match r {
                Ok(request) => password_request(self@.config, email@, password_hash@) == Some(
                    request@,
                ),
                Err(e) => password_request(self@.config, email@, password_hash@) is None && e@
                    == unwritable_request(),
            },
    {
        match build_password_request(&self.config, email, password_hash) {
            Some(request) => Ok(request),
            None => Err(
                AppError::Serialization(String::from_str("request body cannot be written")),
            ),
        }
    }

    /// Reads the answer to `authenticate_request`: success opens a session
    /// that has never synced, which is stored as the session row; a refusal
    /// is an authentication failure with the server's message; no answer is
    /// a transport failure. Without success the store stays as it is.
    pub fn authenticate(&self, db: &mut Database, reply: HttpReply, now: &Moment) -> (r: Result<
        UserSession,
        AppError,
    >)
        requires
            old(db).wf(),
        ensures
            final(db).wf(),
            match r {
                Ok(session) => auth_outcome(reply, now@.text) == Ok::<
                    UserSessionView,
                    AppErrorView,
                >(session@) && final(db)@ == old(db)@.save_session(session@),
                Err(e) => auth_outcome(reply, now@.text) == Err::<UserSessionView, AppErrorView>(
                    e@,
                ) && final(db)@ == old(db)@,
            },
    {
        let outcome = match reply {
            HttpReply::Unreachable(m) => Err(AppError::Http(m)),
            HttpReply::Answered(response) => {
                if !status_is_success(response.status) {
                    match response.body {
                        ResponseBody::Error(e) => Err(AppError::Auth(e.message)),
                        _ => Err(AppError::Auth(String::from_str("Authentication failed"))),
                    }
                } else {
                    match response.body {
                        ResponseBody::Auth(a) => Ok(session_from(a, None, now.rfc3339.as_str())),
                        ResponseBody::Malformed(m) => Err(AppError::Sync(m)),
                        _ => Err(unexpected()),
                    }
                }
            },
        };
        match outcome {
            Ok(session) => {
                let _ = db.save_session(&session);
                Ok(session)
            },
            Err(e) => Err(e),
        }
    }

    /// The request that exchanges the session's refresh token for new tokens.
    pub fn refresh_token_request(&self, session: &UserSession) -> (r: Result<HttpRequest, AppError>)
        ensures
            match r {
                Ok(request) => renewal_request(self@.config, session@.refresh_token) == Some(
                    request@,
                ),
                Err(e) => renewal_request(self@.config, session@.refresh_token) is None && e@
                    == unwritable_request(),
            },
    {
        match build_renewal_request(&self.config, session.refresh_token.as_str()) {
            Some(request) => Ok(request),
            None => Err(
                AppError::Serialization(String::from_str("request body cannot be written")),
            ),
        }
    }

    /// Reads the answer to `refresh_token_request`: success gives the session
    /// with new tokens and its old time of last sync; anything else is a
    /// failure that no sync survives.
    pub fn refresh_token(&self, session: &UserSession, reply: HttpReply, now: &Moment) -> (r:
        Result<UserSession, AppError>)
        ensures
            match r {
                Ok(renewed) => refresh_outcome(session@, reply, now@.text) == Ok::<
                    UserSessionView,
                    AppErrorView,
                >(renewed@),
                Err(e) => refresh_outcome(session@, reply, now@.text) == Err::<
                    UserSessionView,
                    AppErrorView,
                >(e@),
            },
    {
        match reply {
            HttpReply::Unreachable(m) => Err(AppError::Http(m)),
            HttpReply::Answered(response) => {
                if !status_is_success(response.status) {
                    Err(AppError::Auth(String::from_str("Failed to refresh token")))
                } else {
                    match response.body {
                        ResponseBody::Auth(a) => Ok(
                            session_from(
                                a,
                                clone_opt(&session.last_sync_at),
                                now.rfc3339.as_str(),
                            ),
                        ),
                        ResponseBody::Malformed(m) => Err(AppError::Sync(m)),
                        _ => Err(unexpected()),
                    }
                }
            },
        }
    }

    /// Gives the cycle up.
    fn fail(&mut self, db: &Database, err: AppError) -> (step: SyncStep)
        ensures
            (Transition { engine: final(self)@, store: db@, step: step@ }) == fail(
                old(self)@,
                db@,
                err@,
            ),
            final(self).wf(),
    {
        self.status.is_syncing = false;
        self.stage = SyncStage::Idle;
        SyncStep::Failed(err)
    }

    /// Begins the pull: asks for the folders that changed after `since`.
    fn pull_changes(&mut self, db: &Database, session: UserSession, since: Option<String>, initial: bool)
        -> (step: SyncStep)
        requires
            old(self)@.status.is_syncing,
        ensures
            (Transition { engine: final(self)@, store: db@, step: step@ }) == start_pull(
                old(self)@,
                db@,
                session@,
                opt_text(since),
                initial,
            ),
            final(self).wf(),
    {
        let request = build_pull_request(
            &self.config,
            &session,
            "folders",
            &since,
            Expectation::Folders,
        );
        self.stage = SyncStage::PullingFolders { session, since, initial };
        SyncStep::Call(request)
    }

    /// Pushes the outbox from entry `start` on: entries that need no call are
    /// acknowledged on the spot, the first that needs one is handed out, and
    /// after the last the pull begins.
    fn push_changes(
        &mut self,
        db: &mut Database,
        session: UserSession,
        pending: Vec<SyncQueueItem>,
        start: usize,
        now: &str,
    ) -> (step: SyncStep)
        requires
            old(db).wf(),
            old(self)@.status.is_syncing,
            start <= pending.len(),
        ensures
            final(db).wf(),
            final(self).wf(),
            (Transition { engine: final(self)@, store: final(db)@, step: step@ }) == push_from(
                old(self)@,
                old(db)@,
                session@,
                entry_views(pending@),
                start as int,
                now@,
            ),
    {
        let mut i: usize = start;
        while i < pending.len()
            invariant
                db.wf(),
                *self == *old(self),
                self@.status.is_syncing,
                start <= i <= pending.len(),
                push_from(self@, db@, session@, entry_views(pending@), i as int, now@) == push_from(
                    old(self)@,
                    old(db)@,
                    session@,
                    entry_views(pending@),
                    start as int,
                    now@,
                ),
            decreases pending.len() - i,
        {
            let entry = &pending[i];
            proof {
                assert(entry_views(pending@)[i as int] == entry@);
            }
            match plan_push(&self.config, db, &session, entry) {
                PushDecision::Send(request) => {
                    proof {
                        assert(entry_views(pending@).len() == pending.len());
                    }
                    self.stage = SyncStage::Pushing { session, pending, next: i };
                    return SyncStep::Call(request);
                },
                PushDecision::Acknowledge => {
                    let _ = db.remove_from_sync_queue(entry.id);
                    let _ = db.mark_item_synced(
                        entry.table_name.as_str(),
                        entry.record_id.as_str(),
                        now,
                    );
                },
                PushDecision::Skip => {},
            }
            i = i + 1;
        }
        let since = clone_opt(&session.last_sync_at);
        self.pull_changes(db, session, since, false)
    }

    /// Makes sure the session's tokens will hold for the cycle: where they
    /// lapse within the skew window the renewal is handed out, otherwise the
    /// push begins with the session as it is.
    fn ensure_valid_token(&mut self, db: &mut Database, session: UserSession, now: &Moment) -> (step:
        SyncStep)
        requires
            old(db).wf(),
            old(self)@.status.is_syncing,
        ensures
            final(db).wf(),
            final(self).wf(),
            (Transition { engine: final(self)@, store: final(db)@, step: step@ }) == (
            match rfc3339_seconds(session@.expires_at) {
                None => fail(old(self)@, old(db)@, AppErrorView::Auth("Invalid token expiry"@)),
                Some(expires_at) => if refresh_due(expires_at, now@.seconds) {
                    match renewal_request(old(self)@.config, session@.refresh_token) {
                        Some(request) => Transition {
                            engine: SyncEngineView {
                                stage: SyncStageView::Refreshing { session: session@ },
                                ..old(self)@
                            },
                            store: old(db)@,
                            step: SyncStepView::Call(request),
                        },
                        None => fail(old(self)@, old(db)@, unwritable_request()),
                    }
                } else {
                    push_from(old(self)@, old(db)@, session@, old(db)@.queue, 0, now@.text)
                },
            }),
    {
        match parse_rfc3339(session.expires_at.as_str()) {
            None => self.fail(db, AppError::Auth(String::from_str("Invalid token expiry"))),
            Some(expires_at) => {
                if is_refresh_due(expires_at, now.epoch_seconds) {
                    match self.refresh_token_request(&session) {
                        Ok(request) => {
                            self.stage = SyncStage::Refreshing { session };
                            SyncStep::Call(request)
                        },
                        Err(e) => self.fail(db, e),
                    }
                } else {
                    match db.get_pending_sync_items() {
                        Ok(pending) => self.push_changes(db, session, pending, 0, now.rfc3339.as_str()),
                        Err(e) => self.fail(db, e),
                    }
                }
            },
        }
    }

    /// One cycle from its start: a session is required.
    fn perform_sync(&mut self, db: &mut Database, now: &Moment) -> (step: SyncStep)
        requires
            old(db).wf(),
            old(self)@.status.is_syncing,
        ensures
            final(db).wf(),
            final(self).wf(),
            (Transition { engine: final(self)@, store: final(db)@, step: step@ }) == begin(
                SyncEngineView {
                    status: SyncStatusView { is_syncing: false, ..old(self)@.status },
                    ..old(self)@
                },
                old(db)@,
                now@,
            ),
    {
        match db.get_session() {
            Ok(Some(session)) => self.ensure_valid_token(db, session, now),
            _ => self.fail(db, AppError::Auth(String::from_str("Not logged in"))),
        }
    }

    /// Starts a sync cycle, unless one is under way: then nothing is started
    /// and nothing changes, and the caller gets the status of the cycle in
    /// flight. Otherwise the result is the first request of the cycle, or its
    /// end where it needs none.
    pub fn sync(&mut self, db: &mut Database, now: &Moment) -> (step: SyncStep)
        requires
            old(self).wf(),
            old(db).wf(),
        ensures
            final(self).wf(),
            final(db).wf(),
            (Transition { engine: final(self)@, store: final(db)@, step: step@ }) == start(
                old(self)@,
                old(db)@,
                now@,
            ),
    {
        if self.status.is_syncing {
            return SyncStep::Busy(self.get_status(db));
        }
        self.status.is_syncing = true;
        self.perform_sync(db, now)
    }

    /// Stores the folders that were fetched and asks for the vault records.
    fn pull_folders(
        &mut self,
        db: &mut Database,
        session: UserSession,
        since: Option<String>,
        initial: bool,
        reply: HttpReply,
        now: &str,
    ) -> (step: SyncStep)
        requires
            old(db).wf(),
            old(self)@.status.is_syncing,
        ensures
            final(db).wf(),
            final(self).wf(),
            (Transition { engine: final(self)@, store: final(db)@, step: step@ }) == (
            match folders_outcome(reply) {
                Err(err) => fail(old(self)@, old(db)@, err),
                Ok(list) => Transition {
                    engine: SyncEngineView {
                        stage: SyncStageView::PullingItems {
                            session: session@,
                            since: opt_text(since),
                            initial,
                        },
                        ..old(self)@
                    },
                    store: old(db)@.bulk_upsert_folders(local_folders(list, now@)),
                    step: SyncStepView::Call(
                        pull_request(
                            old(self)@.config,
                            session@,
                            "vault_items"@,
                            opt_text(since),
                            Expectation::VaultItems,
                        ),
                    ),
                },
            }),
    {
        match reply {
            HttpReply::Unreachable(m) => self.fail(db, AppError::Http(m)),
            HttpReply::Answered(response) => {
                if !status_is_success(response.status) {
                    self.fail(db, AppError::Sync(String::from_str("Failed to pull folders")))
                } else {
                    match response.body {
                        ResponseBody::Folders(list) => {
                            let folders = to_local_folders(&list, now);
                            let _ = db.bulk_upsert_folders(&folders);
                            let request = build_pull_request(
                                &self.config,
                                &session,
                                "vault_items",
                                &since,
                                Expectation::VaultItems,
                            );
                            self.stage = SyncStage::PullingItems { session, since, initial };
                            SyncStep::Call(request)
                        },
                        ResponseBody::Malformed(m) => self.fail(db, AppError::Sync(m)),
                        _ => self.fail(db, unexpected()),
                    }
                }
            },
        }
    }

    /// Stores the vault records that were fetched and ends the cycle.
    fn pull_vault_items(&mut self, db: &mut Database, initial: bool, reply: HttpReply, now: &str)
        -> (step: SyncStep)
        requires
            old(db).wf(),
            old(self)@.status.is_syncing,
        ensures
            final(db).wf(),
            final(self).wf(),
            (Transition { engine: final(self)@, store: final(db)@, step: step@ }) == (
            match items_outcome(reply) {
                Err(err) => fail(old(self)@, old(db)@, err),
                Ok(list) => {
                    let s1 = old(db)@.bulk_upsert_items(local_items(list, now@));
                    if initial {
                        finish_initial(old(self)@, s1, now@)
                    } else {
                        finish_cycle(old(self)@, s1, now@)
                    }
                },
            }),
    {
        match reply {
            HttpReply::Unreachable(m) => self.fail(db, AppError::Http(m)),
            HttpReply::Answered(response) => {
                if !status_is_success(response.status) {
                    self.fail(db, AppError::Sync(String::from_str("Failed to pull vault items")))
                } else {
                    match response.body {
                        ResponseBody::VaultItems(list) => {
                            let items = to_local_items(&list, now);
                            let _ = db.bulk_upsert_vault_items(&items);
                            if initial {
                                let _ = db.clear_sync_queue();
                            } else {
                                self.status.last_sync_at = Some(now.to_owned());
                            }
                            let _ = db.update_last_sync(now);
                            self.status.is_syncing = false;
                            self.stage = SyncStage::Idle;
                            SyncStep::Finished(self.get_status(db))
                        },
                        ResponseBody::Malformed(m) => self.fail(db, AppError::Sync(m)),
                        _ => self.fail(db, unexpected()),
                    }
                }
            },
        }
    }

    /// Goes on with the cycle, given the reply to the request that was handed
    /// out last. A failed push leaves its entry in the outbox and the cycle
    /// goes on; a failed renewal or pull ends the cycle, and what was pushed
    /// before stays pushed. Without a cycle under way nothing changes.
    pub fn resume(&mut self, db: &mut Database, reply: HttpReply, now: &Moment) -> (step: SyncStep)
        requires
            old(self).wf(),
            old(db).wf(),
        ensures
            final(self).wf(),
            final(db).wf(),
            (Transition { engine: final(self)@, store: final(db)@, step: step@ }) == advance(
                old(self)@,
                old(db)@,
                reply,
                now@,
            ),
    {
        let mut stage = SyncStage::Idle;
        std::mem::swap(&mut self.stage, &mut stage);
        proof {
            assert(stage@ == old(self)@.stage);
            assert(self@ == (SyncEngineView { stage: SyncStageView::Idle, ..old(self)@ }));
        }
        match stage {
            SyncStage::Idle => SyncStep::Failed(
                AppError::InvalidOperation(String::from_str("no sync in progress")),
            ),
            SyncStage::Refreshing { session } => {
                match self.refresh_token(&session, reply, now) {
                    Err(e) => self.fail(db, e),
                    Ok(renewed) => {
                        let _ = db.save_session(&renewed);
                        match db.get_pending_sync_items() {
                            Ok(pending) => self.push_changes(
                                db,
                                renewed,
                                pending,
                                0,
                                now.rfc3339.as_str(),
                            ),
                            Err(e) => self.fail(db, e),
                        }
                    },
                }
            },
            SyncStage::Pushing { session, pending, next } => {
                proof {
                    assert(entry_views(pending@).len() == pending.len());
                    assert(next < pending.len());
                }
                let took = match &reply {
                    HttpReply::Answered(response) => status_is_success(response.status),
                    HttpReply::Unreachable(_) => false,
                };
                if took {
                    let entry = &pending[next];
                    proof {
                        assert(entry_views(pending@)[next as int] == entry@);
                    }
                    let _ = db.remove_from_sync_queue(entry.id);
                    let _ = db.mark_item_synced(
                        entry.table_name.as_str(),
                        entry.record_id.as_str(),
                        now.rfc3339.as_str(),
                    );
                }
                self.push_changes(db, session, pending, next + 1, now.rfc3339.as_str())
            },
            SyncStage::PullingFolders { session, since, initial } => self.pull_folders(
                db,
                session,
                since,
                initial,
                reply,
                now.rfc3339.as_str(),
            ),
            SyncStage::PullingItems { session, since, initial } => self.pull_vault_items(
                db,
                initial,
                reply,
                now.rfc3339.as_str(),
            ),
        }
    }

    /// Starts the first sync of a new session, unless a cycle is under way:
    /// a full fetch of folders and records, after which the outbox is emptied
    /// and the time recorded on the session row.
    pub fn initial_sync(&mut self, db: &mut Database, session: &UserSession) -> (step: SyncStep)
        requires
            old(self).wf(),
            old(db).wf(),
        ensures
            final(self).wf(),
            final(db).wf(),
            (Transition { engine: final(self)@, store: final(db)@, step: step@ }) == (
            if old(self)@.status.is_syncing {
                Transition {
                    engine: old(self)@,
                    store: old(db)@,
                    step: SyncStepView::Busy(report(old(self)@.status, old(db)@)),
                }
            } else {
                begin_initial(old(self)@, old(db)@, session@)
            }),
    {
        if self.status.is_syncing {
            return SyncStep::Busy(self.get_status(db));
        }
        self.status.is_syncing = true;
        self.pull_changes(db, session.clone(), None, true)
    }

    /// Gives up the cycle in flight, if there is one, without touching the
    /// store: what was pushed stays pushed, what was not stays queued, and
    /// the time of the last sync stays what it was. Says whether there was a
    /// cycle to give up.
    pub fn cancel(&mut self) -> (r: bool)
        requires
            old(self).wf(),
        ensures
            final(self).wf(),
            r == old(self)@.status.is_syncing,
            final(self)@ == (SyncEngineView {
                status: SyncStatusView { is_syncing: false, ..old(self)@.status },
                stage: SyncStageView::Idle,
                ..old(self)@
            }),
    {
        let was = self.status.is_syncing;
        self.status.is_syncing = false;
        self.stage = SyncStage::Idle;
        was
    }

    /// Forgets everything of the user: records, folders, outbox and session.
    /// The engine itself is not touched.
    pub fn logout(&self, db: &mut Database) -> (r: Result<(), AppError>)
        requires
            old(db).wf(),
        ensures
            final(db).wf(),
            r is Ok,
            final(db)@ == old(db)@.wipe(),
    {
        db.clear_all_data()
    }
}

/// What a push that went wrong is called: a reply that never came is a
/// transport failure; a refusal is a sync failure that names what was
/// pushed. `None` for a push that the server took.
pub open spec fn push_failure(entry: SyncQueueItemView, reply: HttpReply) -> Option<AppErrorView> {
    match reply {
        HttpReply::Unreachable(m) => Some(AppErrorView::Http(m@)),
        HttpReply::Answered(response) => if is_success(response.status) {
            None
        } else if entry.operation == "delete"@ {
            Some(
                AppErrorView::Sync(
                    "Failed to delete "@ + entry.table_name + " "@ + entry.record_id,
                ),
            )
        } else if entry.table_name == "vault_items"@ {
            Some(
                AppErrorView::Sync(
                    "Failed to sync vault item: "@ + response.status_line@ + " - "@
                        + response.text@,
                ),
            )
        } else {
            Some(AppErrorView::Sync("Failed to sync folder"@))
        },
    }
}

/// The view of an optional failure.
pub open spec fn opt_error(e: Option<AppError>) -> Option<AppErrorView> {
    match e {
        Some(err) => Some(err@),
        None => None,
    }
}

/// The view of an optional outbox entry.
pub open spec fn opt_entry(e: Option<SyncQueueItem>) -> Option<SyncQueueItemView> {
    match e {
        Some(entry) => Some(entry@),
        None => None,
    }
}

/// Decides `push_failure`: what to write down about a push before the cycle
/// goes on.
pub fn describe_push_failure(entry: &SyncQueueItem, reply: &HttpReply) -> (r: Option<AppError>)
    ensures
        opt_error(r) == push_failure(entry@, *reply),
{
    match reply {
        HttpReply::Unreachable(m) => Some(AppError::Http(m.clone())),
        HttpReply::Answered(response) => {
            if status_is_success(response.status) {
                None
            } else if text_eq(entry.operation.as_str(), "delete") {
                Some(
                    AppError::Sync(
                        String::from_str("Failed to delete ").concat(
                            entry.table_name.as_str(),
                        ).concat(" ").concat(entry.record_id.as_str()),
                    ),
                )
            } else if text_eq(entry.table_name.as_str(), "vault_items") {
                Some(
                    AppError::Sync(
                        String::from_str("Failed to sync vault item: ").concat(
                            response.status_line.as_str(),
                        ).concat(" - ").concat(response.text.as_str()),
                    ),
                )
            } else {
                Some(AppError::Sync(String::from_str("Failed to sync folder")))
            }
        },
    }
}

impl SyncEngine {
    /// The outbox entry whose push is in flight, if the cycle stands there.
    pub fn pushing(&self) -> (r: Option<SyncQueueItem>)
        requires
            self.wf(),
        ensures
            opt_entry(r) == (match self@.stage {
                SyncStageView::Pushing { pending, next, .. } => Some(pending[next]),
                _ => None,
            }),
    {
        match &self.stage {
            SyncStage::Pushing { pending, next, .. } => {
                proof {
                    assert(entry_views(pending@).len() == pending.len());
                    assert(entry_views(pending@)[*next as int] == pending[*next as int]@);
                }
                Some(pending[*next].clone())
            },
            _ => None,
        }
    }
}

} // verus!
