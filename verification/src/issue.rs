//! The issue lifecycle dispatcher. Per issue there are two durable states —
//! Unmapped (no thread yet) and Mapped (thread recorded in the store) — and
//! each in-scope action either creates the thread lazily, renames it, edits
//! the anchor message, posts a notification, or is skipped with a reason.
//! `decide_issue` is the transition function; `apply_issue_event` drives it
//! against the store model and yields the gateway calls in order.

use vstd::prelude::*;
use crate::digits::{dec_seq, u64_to_dec};
use crate::event::{Config, IssueAction, IssueEvent};
use crate::filter::{in_scope, sets_meet, spec_in_scope};
use crate::gateway::{calls_view, CallView, GatewayCall};
use crate::keys::{anchor_of, channel_key, channel_key_seq, message_key, message_key_seq, thread_of};
use crate::store::MemStore;

verus! {

/// Why an event produced no gateway call.
#[derive(Clone, Copy, PartialEq, Eq, Structural, Debug)]
pub enum IgnoreReason {
    /// The issue carries no labels at all; dropped before the watch-set is
    /// consulted.
    NoLabels,
    /// The labels do not meet the watch-set.
    NotWatched,
    /// The action needs an existing thread mapping and there is none.
    NotMapped,
    /// A creating action arrived for an issue that is already mapped.
    AlreadyMapped,
    /// The payload lacks the field the action is about; skipped, never a
    /// crash.
    MissingField,
    /// A creating action arrived for an issue without a body to anchor the
    /// thread on.
    NoBody,
    /// An action kind the dispatcher does not cover.
    UnknownAction,
}

/// What the issue dispatcher decided to do for one event.
#[derive(Debug, PartialEq, Eq)]
pub enum IssueDecision {
    Ignore { reason: IgnoreReason },
    /// Rename the issue's thread.
    Rename { thread_id: u64, name: String },
    /// Edit the anchor message the thread was spawned from.
    EditAnchor { channel_id: u64, message_id: u64, content: String },
    /// Post a one-line notification into the issue's thread.
    Notify { channel_id: u64, content: String },
    /// Post `content` into the home channel and spawn a thread named
    /// `thread_name` from that message, then persist both mappings.
    Create { content: String, thread_name: String },
}

/// The decision over character sequences, for contracts.
pub enum IssueDecisionView {
    Ignore { reason: IgnoreReason },
    Rename { thread_id: u64, name: Seq<char> },
    EditAnchor { channel_id: u64, message_id: u64, content: Seq<char> },
    Notify { channel_id: u64, content: Seq<char> },
    Create { content: Seq<char>, thread_name: Seq<char> },
}

impl View for IssueDecision {
    type V = IssueDecisionView;

    open spec fn view(&self) -> IssueDecisionView {
        match self {
            IssueDecision::Ignore { reason } => IssueDecisionView::Ignore { reason: *reason },
            IssueDecision::Rename { thread_id, name } => IssueDecisionView::Rename {
                thread_id: *thread_id,
                name: name@,
            },
            IssueDecision::EditAnchor { channel_id, message_id, content } => {
                IssueDecisionView::EditAnchor {
                    channel_id: *channel_id,
                    message_id: *message_id,
                    content: content@,
                }
            },
            IssueDecision::Notify { channel_id, content } => IssueDecisionView::Notify {
                channel_id: *channel_id,
                content: content@,
            },
            IssueDecision::Create { content, thread_name } => IssueDecisionView::Create {
                content: content@,
                thread_name: thread_name@,
            },
        }
    }
}

/// The name a mapped issue's thread carries while the issue is closed.
pub open spec fn closed_name(title: Seq<char>) -> Seq<char> {
    title + "(closed)"@
}

/// The name a new thread is given: `"{title}#{number}"`.
pub open spec fn thread_title(title: Seq<char>, number: u64) -> Seq<char> {
    title + "#"@ + dec_seq(number as nat)
}

/// The notification for an (un)assignment or an (un)labeling: the prefix
/// already carries the trailing `": "`.
pub open spec fn note(prefix: Seq<char>, subject: Seq<char>) -> Seq<char> {
    prefix + subject
}

/// The creation step: post the body as the anchor message and name the
/// thread after title and number; an issue without a body is skipped.
pub open spec fn creation_decision(ev: IssueEvent) -> IssueDecisionView {
    match ev.issue.body {
        Some(b) => IssueDecisionView::Create {
            content: b@,
            thread_name: thread_title(ev.issue.title@, ev.issue.number),
        },
        None => IssueDecisionView::Ignore { reason: IgnoreReason::NoBody },
    }
}

/// The transition table of the issue lifecycle, one step. `thread` and
/// `anchor` are the issue's two mappings as the store reports them.
pub open spec fn issue_decision(
    cfg: Config,
    ev: IssueEvent,
    thread: Option<u64>,
    anchor: Option<u64>,
) -> IssueDecisionView {
    if ev.issue.labels@.len() == 0 {
        IssueDecisionView::Ignore { reason: IgnoreReason::NoLabels }
    } else if !sets_meet(ev.issue.labels@, cfg.watched@) {
        IssueDecisionView::Ignore { reason: IgnoreReason::NotWatched }
    } else {
        match ev.action {
            IssueAction::Opened => match thread {
                Some(_) => IssueDecisionView::Ignore { reason: IgnoreReason::AlreadyMapped },
                None => creation_decision(ev),
            },
            IssueAction::Labeled => match thread {
                Some(tid) => match ev.label {
                    Some(l) => IssueDecisionView::Notify {
                        channel_id: tid,
                        content: note("Labeled: "@, l@),
                    },
                    None => IssueDecisionView::Ignore { reason: IgnoreReason::MissingField },
                },
                None => creation_decision(ev),
            },
            IssueAction::Closed => match thread {
                Some(tid) => IssueDecisionView::Rename {
                    thread_id: tid,
                    name: closed_name(ev.issue.title@),
                },
                None => IssueDecisionView::Ignore { reason: IgnoreReason::NotMapped },
            },
            IssueAction::Reopened => match thread {
                Some(tid) => IssueDecisionView::Rename { thread_id: tid, name: ev.issue.title@ },
                None => IssueDecisionView::Ignore { reason: IgnoreReason::NotMapped },
            },
            IssueAction::Edited => match thread {
                Some(tid) => match anchor {
                    Some(mid) => IssueDecisionView::EditAnchor {
                        channel_id: tid,
                        message_id: mid,
                        content: ev.issue.title@,
                    },
                    None => IssueDecisionView::Ignore { reason: IgnoreReason::NotMapped },
                },
                None => IssueDecisionView::Ignore { reason: IgnoreReason::NotMapped },
            },
            IssueAction::Assigned => match thread {
                Some(tid) => match ev.assignee {
                    Some(a) => IssueDecisionView::Notify {
                        channel_id: tid,
                        content: note("Assigned: "@, a@),
                    },
                    None => IssueDecisionView::Ignore { reason: IgnoreReason::MissingField },
                },
                None => IssueDecisionView::Ignore { reason: IgnoreReason::NotMapped },
            },
            IssueAction::Unassigned => match thread {
                Some(tid) => match ev.assignee {
                    Some(a) => IssueDecisionView::Notify {
                        channel_id: tid,
                        content: note("Unassigned: "@, a@),
                    },
                    None => IssueDecisionView::Ignore { reason: IgnoreReason::MissingField },
                },
                None => IssueDecisionView::Ignore { reason: IgnoreReason::NotMapped },
            },
            IssueAction::Unlabeled => match thread {
                Some(tid) => match ev.label {
                    Some(l) => IssueDecisionView::Notify {
                        channel_id: tid,
                        content: note("Unlabeled: "@, l@),
                    },
                    None => IssueDecisionView::Ignore { reason: IgnoreReason::MissingField },
                },
                None => IssueDecisionView::Ignore { reason: IgnoreReason::NotMapped },
            },
            IssueAction::Other => IssueDecisionView::Ignore { reason: IgnoreReason::UnknownAction },
        }
    }
}

fn notify(channel_id: u64, prefix: &str, subject: &String) -> (d: IssueDecision)
    ensures
        d@ == (IssueDecisionView::Notify { channel_id, content: note(prefix@, subject@) }),
{
    IssueDecision::Notify {
        channel_id,
        content: String::from_str(prefix).concat(subject.as_str()),
    }
}

/// Decides one issue event from the two mappings the store reported.
pub fn decide_issue(
    cfg: &Config,
    ev: &IssueEvent,
    thread: Option<u64>,
    anchor: Option<u64>,
) -> (d: IssueDecision)
    ensures
        d@ == issue_decision(*cfg, *ev, thread, anchor),
{
    if ev.issue.labels.len() == 0 {
        return IssueDecision::Ignore { reason: IgnoreReason::NoLabels };
    }
    if !in_scope(&ev.issue.labels, &cfg.watched) {
        return IssueDecision::Ignore { reason: IgnoreReason::NotWatched };
    }
    match ev.action {
        IssueAction::Opened => match thread {
            Some(_) => IssueDecision::Ignore { reason: IgnoreReason::AlreadyMapped },
            None => creation(ev),
        },
        IssueAction::Labeled => match thread {
            Some(tid) => match &ev.label {
                Some(l) => notify(tid, "Labeled: ", l),
                None => IssueDecision::Ignore { reason: IgnoreReason::MissingField },
            },
            None => creation(ev),
        },
        IssueAction::Closed => match thread {
            Some(tid) => IssueDecision::Rename {
                thread_id: tid,
                name: ev.issue.title.clone().concat("(closed)"),
            },
            None => IssueDecision::Ignore { reason: IgnoreReason::NotMapped },
        },
        IssueAction::Reopened => match thread {
            Some(tid) => IssueDecision::Rename { thread_id: tid, name: ev.issue.title.clone() },
            None => IssueDecision::Ignore { reason: IgnoreReason::NotMapped },
        },
        IssueAction::Edited => match (thread, anchor) {
            (Some(tid), Some(mid)) => IssueDecision::EditAnchor {
                channel_id: tid,
                message_id: mid,
                content: ev.issue.title.clone(),
            },
            _ => IssueDecision::Ignore { reason: IgnoreReason::NotMapped },
        },
        IssueAction::Assigned => match thread {
            Some(tid) => match &ev.assignee {
                Some(a) => notify(tid, "Assigned: ", a),
                None => IssueDecision::Ignore { reason: IgnoreReason::MissingField },
            },
            None => IssueDecision::Ignore { reason: IgnoreReason::NotMapped },
        },
        IssueAction::Unassigned => match thread {
            Some(tid) => match &ev.assignee {
                Some(a) => notify(tid, "Unassigned: ", a),
                None => IssueDecision::Ignore { reason: IgnoreReason::MissingField },
            },
            None => IssueDecision::Ignore { reason: IgnoreReason::NotMapped },
        },
        IssueAction::Unlabeled => match thread {
            Some(tid) => match &ev.label {
                Some(l) => notify(tid, "Unlabeled: ", l),
                None => IssueDecision::Ignore { reason: IgnoreReason::MissingField },
            },
            None => IssueDecision::Ignore { reason: IgnoreReason::NotMapped },
        },
        IssueAction::Other => IssueDecision::Ignore { reason: IgnoreReason::UnknownAction },
    }
}

fn creation(ev: &IssueEvent) -> (d: IssueDecision)
    ensures
        d@ == creation_decision(*ev),
{
    match &ev.issue.body {
        Some(b) => IssueDecision::Create {
            content: b.clone(),
            thread_name: ev.issue.title.clone().concat("#").concat(
                u64_to_dec(ev.issue.number).as_str(),
            ),
        },
        None => IssueDecision::Ignore { reason: IgnoreReason::NoBody },
    }
}

/// The ids the gateway granted while one event was carried out: the anchor
/// message's id and the spawned thread's id. `None` records a failed call,
/// which abandons the steps that would have needed the id.
#[derive(Clone, Copy, Debug)]
pub struct RemoteIds {
    pub message_id: Option<u64>,
    pub thread_id: Option<u64>,
}

/// The gateway calls one issue event gives rise to, in order.
pub open spec fn issue_calls(cfg: Config, m: Map<Seq<char>, u64>, ev: IssueEvent, r: RemoteIds) -> Seq<
    CallView,
> {
    match issue_decision(cfg, ev, thread_of(m, ev.issue.id), anchor_of(m, ev.issue.id)) {
        IssueDecisionView::Ignore { .. } => Seq::<CallView>::empty(),
        IssueDecisionView::Rename { thread_id, name } => seq![
            CallView::RenameThread { thread_id, name },
        ],
        IssueDecisionView::EditAnchor { channel_id, message_id, content } => seq![
            CallView::EditMessage { channel_id, message_id, content },
        ],
        IssueDecisionView::Notify { channel_id, content } => seq![
            CallView::SendMessage { channel_id, content },
        ],
        IssueDecisionView::Create { content, thread_name } => {
            let send = CallView::SendMessage { channel_id: cfg.channel_id, content };
            match r.message_id {
                None => seq![send],
                Some(mid) => {
                    let spawn = CallView::CreateThread {
                        channel_id: cfg.channel_id,
                        message_id: mid,
                        name: thread_name,
                    };
                    match r.thread_id {
                        None => seq![send, spawn],
                        Some(cid) => seq![send, spawn, CallView::JoinThread { thread_id: cid }],
                    }
                },
            }
        },
    }
}

/// The store after one issue event: only a completed creation writes, and
/// it writes exactly the issue's two mappings.
pub open spec fn issue_store(
    cfg: Config,
    m: Map<Seq<char>, u64>,
    ev: IssueEvent,
    r: RemoteIds,
) -> Map<Seq<char>, u64> {
    match issue_decision(cfg, ev, thread_of(m, ev.issue.id), anchor_of(m, ev.issue.id)) {
        IssueDecisionView::Create { content, thread_name } => match (r.message_id, r.thread_id) {
            (Some(mid), Some(cid)) => m.insert(channel_key_seq(ev.issue.id), cid).insert(
                message_key_seq(ev.issue.id),
                mid,
            ),
            _ => m,
        },
        _ => m,
    }
}

/// Runs one issue event against the store model: reads the mappings,
/// decides, records a completed creation, and returns the gateway calls
/// in the order they are to be performed.
pub fn apply_issue_event(
    cfg: &Config,
    store: &mut MemStore,
    ev: &IssueEvent,
    remote: RemoteIds,
) -> (calls: Vec<GatewayCall>)
    ensures
        calls_view(calls@) == issue_calls(*cfg, old(store)@, *ev, remote),
        final(store)@ == issue_store(*cfg, old(store)@, *ev, remote),
{
    let thread = store.get(&channel_key(ev.issue.id));
    let anchor = store.get(&message_key(ev.issue.id));
    let d = decide_issue(cfg, ev, thread, anchor);
    let mut calls: Vec<GatewayCall> = Vec::new();
    match d {
        IssueDecision::Ignore { reason: _ } => {
            proof {
                assert(calls_view(calls@) =~= issue_calls(*cfg, old(store)@, *ev, remote));
            }
        },
        IssueDecision::Rename { thread_id, name } => {
            calls.push(GatewayCall::RenameThread { thread_id, name });
            proof {
                assert(calls_view(calls@) =~= issue_calls(*cfg, old(store)@, *ev, remote));
            }
        },
        IssueDecision::EditAnchor { channel_id, message_id, content } => {
            calls.push(GatewayCall::EditMessage { channel_id, message_id, content });
            proof {
                assert(calls_view(calls@) =~= issue_calls(*cfg, old(store)@, *ev, remote));
            }
        },
        IssueDecision::Notify { channel_id, content } => {
            calls.push(GatewayCall::SendMessage { channel_id, content });
            proof {
                assert(calls_view(calls@) =~= issue_calls(*cfg, old(store)@, *ev, remote));
            }
        },
        IssueDecision::Create { content, thread_name } => {
            calls.push(GatewayCall::SendMessage { channel_id: cfg.channel_id, content });
            if let Some(mid) = remote.message_id {
                calls.push(
                    GatewayCall::CreateThread {
                        channel_id: cfg.channel_id,
                        message_id: mid,
                        name: thread_name,
                    },
                );
                if let Some(cid) = remote.thread_id {
                    calls.push(GatewayCall::JoinThread { thread_id: cid });
                    store.set(channel_key(ev.issue.id), cid);
                    store.set(message_key(ev.issue.id), mid);
                }
            }
            proof {
                assert(calls_view(calls@) =~= issue_calls(*cfg, old(store)@, *ev, remote));
            }
        },
    }
    calls
}

} // verus!
