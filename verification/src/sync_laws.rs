//! What holds of the sync engine across calls: one cycle at a time, tokens
//! renewed exactly when they are about to lapse, and a push that never
//! touches the session.

use vstd::prelude::*;
use crate::clock::{rfc3339_seconds, MomentView};
use crate::model::{
    entry_ids, entry_position, folder_ids, folder_position, item_ids, item_position,
    lemma_position, StoreState,
};
use crate::records::{SyncQueueItemView, UserSessionView};
use crate::remote::{renewal_request, HttpReply};
use crate::sync::{
    acknowledge, advance, begin, push_from, push_plan, refresh_outcome, report, start, PushPlan,
    SyncEngineView, SyncStageView, SyncStatusView, SyncStepView, Transition,
};

verus! {

/// Acknowledging an entry keeps the store valid, shortens the outbox by that
/// entry at most, and leaves session and settings alone.
pub proof fn lemma_acknowledge(s: StoreState, entry: SyncQueueItemView, now: Seq<char>)
    requires
        s.wf(),
    ensures
        acknowledge(s, entry, now).wf(),
        acknowledge(s, entry, now).session == s.session,
        acknowledge(s, entry, now).settings == s.settings,
        acknowledge(s, entry, now).last_sequence == s.last_sequence,
        acknowledge(s, entry, now).queue.len() <= s.queue.len(),
        entry_position(s.queue, entry.id) < s.queue.len() ==> acknowledge(s, entry, now).queue.len()
            == s.queue.len() - 1,
{
    let d = s.dequeue(entry.id);
    lemma_position(entry_ids(s.queue), entry.id);
    assert(d.wf());
    let t = d.mark_synced(entry.table_name, entry.record_id, now);
    lemma_position(item_ids(d.items), entry.record_id);
    lemma_position(folder_ids(d.folders), entry.record_id);
    if entry.table_name == "vault_items"@ {
        if item_position(d.items, entry.record_id) < d.items.len() {
            assert(item_ids(t.items) =~= item_ids(d.items));
        }
    } else if entry.table_name == "folders"@ {
        if folder_position(d.folders, entry.record_id) < d.folders.len() {
            assert(folder_ids(t.folders) =~= folder_ids(d.folders));
        }
    }
}

/// However far the push gets, it ends by handing out a request; the engine
/// stays valid and busy, the store stays valid, and the session row, the
/// settings and the status are what they were.
pub proof fn lemma_push_hands_out_a_call(
    e: SyncEngineView,
    s: StoreState,
    session: UserSessionView,
    pending: Seq<SyncQueueItemView>,
    next: int,
    now: Seq<char>,
)
    requires
        e.status.is_syncing,
        s.wf(),
    ensures
        push_from(e, s, session, pending, next, now).step is Call,
        push_from(e, s, session, pending, next, now).engine.wf(),
        push_from(e, s, session, pending, next, now).engine.status == e.status,
        push_from(e, s, session, pending, next, now).engine.config == e.config,
        push_from(e, s, session, pending, next, now).store.wf(),
        push_from(e, s, session, pending, next, now).store.session == s.session,
        push_from(e, s, session, pending, next, now).store.settings == s.settings,
        push_from(e, s, session, pending, next, now).store.queue.len() <= s.queue.len(),
    decreases pending.len() - next,
{
    if 0 <= next < pending.len() {
        match push_plan(e.config, s, session, pending[next]) {
            PushPlan::Send(_) => {},
            PushPlan::Acknowledge => {
                lemma_acknowledge(s, pending[next], now);
                lemma_push_hands_out_a_call(
                    e,
                    acknowledge(s, pending[next], now),
                    session,
                    pending,
                    next + 1,
                    now,
                );
            },
            PushPlan::Skip => {
                lemma_push_hands_out_a_call(e, s, session, pending, next + 1, now);
            },
        }
    }
}

/// While a cycle is under way, a call for a sync starts nothing: engine and
/// store stay as they are, no request is handed out, and the caller sees a
/// status that says "syncing". The same holds of the next such call, and of
/// every one after it.
pub proof fn lemma_single_flight(e: SyncEngineView, s: StoreState, first: MomentView, second: MomentView)
    requires
        e.wf(),
        e.status.is_syncing,
    ensures
        start(e, s, first) == (Transition {
            engine: e,
            store: s,
            step: SyncStepView::Busy(report(e.status, s)),
        }),
        report(e.status, s).is_syncing,
        start(start(e, s, first).engine, start(e, s, first).store, second) == start(e, s, first),
{
}

/// A call for a sync on an idle engine either ends the cycle at once, and
/// the engine is idle again, or hands out a request, and the engine is busy:
/// every further call for a sync is then turned away until the cycle ends.
pub proof fn lemma_started_cycle_is_in_flight(e: SyncEngineView, s: StoreState, now: MomentView)
    requires
        e.wf(),
        s.wf(),
        !e.status.is_syncing,
    ensures
        start(e, s, now).engine.wf(),
        start(e, s, now).store.wf(),
        start(e, s, now).step is Call <==> start(e, s, now).engine.status.is_syncing,
        start(e, s, now).step is Call || start(e, s, now).step is Failed,
        start(e, s, now).step is Failed ==> start(e, s, now).store == s,
{
    let e1 = SyncEngineView { status: SyncStatusView { is_syncing: true, ..e.status }, ..e };
    match s.session {
        None => {},
        Some(session) => {
            lemma_push_hands_out_a_call(e1, s, session, s.queue, 0, now.text);
        },
    }
}

/// Tokens are renewed exactly when they lapse within the skew window. Where
/// no more than 300 seconds are left, the cycle begins by asking for new
/// tokens and pushes nothing yet. Where more are left, the cycle goes
/// straight to the push, and the session row is left untouched.
pub proof fn lemma_refresh_exactly_when_due(
    e: SyncEngineView,
    s: StoreState,
    session: UserSessionView,
    expires_at: int,
    now: MomentView,
)
    requires
        e.wf(),
        s.wf(),
        !e.status.is_syncing,
        s.session == Some(session),
        rfc3339_seconds(session.expires_at) == Some(expires_at),
    ensures
        expires_at <= now.seconds + 300 ==> begin(e, s, now).store == s && (match renewal_request(
            e.config,
            session.refresh_token,
        ) {
            Some(request) => begin(e, s, now).step == SyncStepView::Call(request) && begin(
                e,
                s,
                now,
            ).engine.stage == (SyncStageView::Refreshing { session }),
            None => begin(e, s, now).step is Failed,
        }),
        expires_at > now.seconds + 300 ==> begin(e, s, now).store.session == Some(session)
            && !(begin(e, s, now).engine.stage is Refreshing) && begin(e, s, now) == push_from(
            SyncEngineView { status: SyncStatusView { is_syncing: true, ..e.status }, ..e },
            s,
            session,
            s.queue,
            0,
            now.text,
        ),
{
    let e1 = SyncEngineView { status: SyncStatusView { is_syncing: true, ..e.status }, ..e };
    lemma_push_hands_out_a_call(e1, s, session, s.queue, 0, now.text);
    lemma_push_never_renews(e1, s, session, s.queue, 0, now.text);
}

/// The push never leaves the engine waiting for new tokens.
pub proof fn lemma_push_never_renews(
    e: SyncEngineView,
    s: StoreState,
    session: UserSessionView,
    pending: Seq<SyncQueueItemView>,
    next: int,
    now: Seq<char>,
)
    ensures
        !(push_from(e, s, session, pending, next, now).engine.stage is Refreshing),
    decreases pending.len() - next,
{
    if 0 <= next < pending.len() {
        match push_plan(e.config, s, session, pending[next]) {
            PushPlan::Send(_) => {},
            PushPlan::Acknowledge => {
                lemma_push_never_renews(
                    e,
                    acknowledge(s, pending[next], now),
                    session,
                    pending,
                    next + 1,
                    now,
                );
            },
            PushPlan::Skip => {
                lemma_push_never_renews(e, s, session, pending, next + 1, now);
            },
        }
    }
}

/// A renewal that succeeds is written to the session row before anything is
/// pushed, and it is the renewed session that the rest of the cycle uses; a
/// renewal that fails ends the cycle with the store as it was.
pub proof fn lemma_renewal_is_persisted(
    e: SyncEngineView,
    s: StoreState,
    session: UserSessionView,
    reply: HttpReply,
    now: MomentView,
)
    requires
        e.wf(),
        s.wf(),
        e.stage == (SyncStageView::Refreshing { session }),
    ensures
        match refresh_outcome(session, reply, now.text) {
            Ok(renewed) => advance(e, s, reply, now).store.session == Some(renewed) && advance(
                e,
                s,
                reply,
                now,
            ).step is Call,
            Err(err) => advance(e, s, reply, now).store == s && advance(e, s, reply, now).step
                == SyncStepView::Failed(err) && !advance(e, s, reply, now).engine.status.is_syncing,
        },
{
    let idle = SyncEngineView { stage: SyncStageView::Idle, ..e };
    match refresh_outcome(session, reply, now.text) {
        Ok(renewed) => {
            lemma_push_hands_out_a_call(
                idle,
                s.save_session(renewed),
                renewed,
                s.queue,
                0,
                now.text,
            );
        },
        Err(_) => {},
    }
}

/// Whatever the reply, a step of the cycle keeps engine and store valid, and
/// the outbox never grows by it.
pub proof fn lemma_step_keeps_validity(e: SyncEngineView, s: StoreState, reply: HttpReply, now: MomentView)
    requires
        e.wf(),
        s.wf(),
    ensures
        advance(e, s, reply, now).engine.wf(),
        advance(e, s, reply, now).store.wf(),
        advance(e, s, reply, now).engine.config == e.config,
        advance(e, s, reply, now).store.queue.len() <= s.queue.len(),
        advance(e, s, reply, now).store.settings == s.settings,
        advance(e, s, reply, now).step is Call <==> advance(e, s, reply, now).engine.status.is_syncing,
        !(advance(e, s, reply, now).step is Busy),
{
    let idle = SyncEngineView { stage: SyncStageView::Idle, ..e };
    match e.stage {
        SyncStageView::Idle => {},
        SyncStageView::Refreshing { session } => {
            match refresh_outcome(session, reply, now.text) {
                Ok(renewed) => {
                    lemma_push_hands_out_a_call(
                        idle,
                        s.save_session(renewed),
                        renewed,
                        s.queue,
                        0,
                        now.text,
                    );
                },
                Err(_) => {},
            }
        },
        SyncStageView::Pushing { session, pending, next } => {
            let s1 = if crate::sync::push_succeeded(reply) && 0 <= next < pending.len() {
                acknowledge(s, pending[next], now.text)
            } else {
                s
            };
            lemma_acknowledge(s, pending[next], now.text);
            lemma_push_hands_out_a_call(idle, s1, session, pending, next + 1, now.text);
        },
        SyncStageView::PullingFolders { session, since, initial } => {
            match crate::sync::folders_outcome(reply) {
                Ok(list) => {
                    crate::store_laws::lemma_upsert_folders_keep_ids_unique(
                        s.folders,
                        crate::remote::local_folders(list, now.text),
                    );
                },
                Err(_) => {},
            }
        },
        SyncStageView::PullingItems { session, since, initial } => {
            match crate::sync::items_outcome(reply) {
                Ok(list) => {
                    crate::store_laws::lemma_upsert_items_keep_ids_unique(
                        s.items,
                        crate::remote::local_items(list, now.text),
                    );
                },
                Err(_) => {},
            }
        },
    }
}

/// A cycle that is given up leaves the store exactly as the failing step
/// found it, the engine idle, and the time of the last sync, in the status
/// and on the session row, what it was. What was pushed before stays pushed.
pub proof fn lemma_failure_changes_nothing(e: SyncEngineView, s: StoreState, reply: HttpReply, now: MomentView)
    requires
        e.wf(),
        s.wf(),
        advance(e, s, reply, now).step is Failed,
    ensures
        advance(e, s, reply, now).store == s,
        !advance(e, s, reply, now).engine.status.is_syncing,
        advance(e, s, reply, now).engine.stage is Idle,
        advance(e, s, reply, now).engine.status.last_sync_at == e.status.last_sync_at,
{
    let idle = SyncEngineView { stage: SyncStageView::Idle, ..e };
    match e.stage {
        SyncStageView::Refreshing { session } => {
            match refresh_outcome(session, reply, now.text) {
                Ok(renewed) => {
                    lemma_push_hands_out_a_call(
                        idle,
                        s.save_session(renewed),
                        renewed,
                        s.queue,
                        0,
                        now.text,
                    );
                },
                Err(_) => {},
            }
        },
        SyncStageView::Pushing { session, pending, next } => {
            let s1 = if crate::sync::push_succeeded(reply) && 0 <= next < pending.len() {
                acknowledge(s, pending[next], now.text)
            } else {
                s
            };
            lemma_acknowledge(s, pending[next], now.text);
            lemma_push_hands_out_a_call(idle, s1, session, pending, next + 1, now.text);
        },
        _ => {},
    }
}

/// A cycle that ends well leaves the engine idle, reports the outbox as it
/// is, and records the time of its end on the session row; a full cycle
/// records it in the status as well, and the first sync of a session leaves
/// the outbox empty.
pub proof fn lemma_success_records_the_time(e: SyncEngineView, s: StoreState, reply: HttpReply, now: MomentView)
    requires
        e.wf(),
        s.wf(),
        advance(e, s, reply, now).step is Finished,
    ensures
        !advance(e, s, reply, now).engine.status.is_syncing,
        advance(e, s, reply, now).step == SyncStepView::Finished(
            report(advance(e, s, reply, now).engine.status, advance(e, s, reply, now).store),
        ),
        s.session is Some ==> (advance(e, s, reply, now).store.session matches Some(row)
            && row.last_sync_at == Some(now.text)),
        e.stage matches SyncStageView::PullingItems { initial, .. } && (if initial {
            advance(e, s, reply, now).store.queue.len() == 0
        } else {
            advance(e, s, reply, now).engine.status.last_sync_at == Some(now.text)
                && advance(e, s, reply, now).store.queue == s.queue
        }),
{
    let idle = SyncEngineView { stage: SyncStageView::Idle, ..e };
    match e.stage {
        SyncStageView::Refreshing { session } => {
            match refresh_outcome(session, reply, now.text) {
                Ok(renewed) => {
                    lemma_push_hands_out_a_call(
                        idle,
                        s.save_session(renewed),
                        renewed,
                        s.queue,
                        0,
                        now.text,
                    );
                },
                Err(_) => {},
            }
        },
        SyncStageView::Pushing { session, pending, next } => {
            let s1 = if crate::sync::push_succeeded(reply) && 0 <= next < pending.len() {
                acknowledge(s, pending[next], now.text)
            } else {
                s
            };
            lemma_acknowledge(s, pending[next], now.text);
            lemma_push_hands_out_a_call(idle, s1, session, pending, next + 1, now.text);
        },
        _ => {},
    }
}

/// An entry leaves the outbox during a push only where the server took it
/// or nothing was left to tell the server: with a reply that is no success,
/// and with entries behind it that all need a call, the outbox stays as it
/// is.
pub proof fn lemma_unacknowledged_entry_stays(
    e: SyncEngineView,
    s: StoreState,
    session: UserSessionView,
    pending: Seq<SyncQueueItemView>,
    next: int,
    reply: HttpReply,
    now: MomentView,
)
    requires
        e.wf(),
        s.wf(),
        e.stage == (SyncStageView::Pushing { session, pending, next }),
        !crate::sync::push_succeeded(reply),
        next + 1 < pending.len() ==> push_plan(e.config, s, session, pending[next + 1])
            is Send,
    ensures
        advance(e, s, reply, now).store == s,
        advance(e, s, reply, now).step is Call,
{
}

} // verus!
