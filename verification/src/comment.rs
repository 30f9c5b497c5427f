//! The comment lifecycle dispatcher. It acts only when the parent issue is
//! already mapped to a thread; a created comment is mirrored as a message
//! in that thread and recorded under the comment's own id, so a later edit
//! or deletion targets exactly that message. Keying by issue id instead
//! would conflate an issue's many comments.

use vstd::prelude::*;
use crate::event::{CommentAction, CommentEvent};
use crate::gateway::{calls_view, CallView, GatewayCall};
use crate::issue::IgnoreReason;
use crate::keys::{channel_key, comment_key, comment_key_seq, comment_msg_of, thread_of};
use crate::store::MemStore;

verus! {

/// What the comment dispatcher decided to do for one event.
#[derive(Debug, PartialEq, Eq)]
pub enum CommentDecision {
    Ignore { reason: IgnoreReason },
    /// Mirror a fresh comment into the issue's thread; the message id the
    /// gateway grants is then recorded under the comment's id.
    Send { channel_id: u64, content: String },
    /// Retarget the comment's mirror message with its new body.
    Edit { channel_id: u64, message_id: u64, content: String },
    /// Remove the comment's mirror message.
    Delete { channel_id: u64, message_id: u64 },
}

/// The decision over character sequences, for contracts.
pub enum CommentDecisionView {
    Ignore { reason: IgnoreReason },
    Send { channel_id: u64, content: Seq<char> },
    Edit { channel_id: u64, message_id: u64, content: Seq<char> },
    Delete { channel_id: u64, message_id: u64 },
}

impl View for CommentDecision {
    type V = CommentDecisionView;

    open spec fn view(&self) -> CommentDecisionView {
        match self {
            CommentDecision::Ignore { reason } => CommentDecisionView::Ignore { reason: *reason },
            CommentDecision::Send { channel_id, content } => CommentDecisionView::Send {
                channel_id: *channel_id,
                content: content@,
            },
            CommentDecision::Edit { channel_id, message_id, content } => CommentDecisionView::Edit {
                channel_id: *channel_id,
                message_id: *message_id,
                content: content@,
            },
            CommentDecision::Delete { channel_id, message_id } => CommentDecisionView::Delete {
                channel_id: *channel_id,
                message_id: *message_id,
            },
        }
    }
}

/// A comment body as it is mirrored: `"..."` stands in for an absent one.
pub open spec fn body_or_default(body: Option<String>) -> Seq<char> {
    match body {
        Some(b) => b@,
        None => "..."@,
    }
}

/// The text a fresh comment is mirrored as:
/// `"**{author}** added a *comment*:\n{body}\n\n> {url}"`.
pub open spec fn comment_note(author: Seq<char>, body: Seq<char>, url: Seq<char>) -> Seq<char> {
    "**"@ + author + "** added a *comment*:\n"@ + body + "\n\n> "@ + url
}

/// The transition table of the comment lifecycle, one step. `thread` is
/// the parent issue's mapping, `mirror` the comment's own.
pub open spec fn comment_decision(
    ev: CommentEvent,
    thread: Option<u64>,
    mirror: Option<u64>,
) -> CommentDecisionView {
    match ev.action {
        CommentAction::Created => match thread {
            Some(cid) => CommentDecisionView::Send {
                channel_id: cid,
                content: comment_note(ev.author@, body_or_default(ev.body), ev.html_url@),
            },
            None => CommentDecisionView::Ignore { reason: IgnoreReason::NotMapped },
        },
        CommentAction::Edited => match (thread, mirror) {
            (Some(cid), Some(mid)) => CommentDecisionView::Edit {
                channel_id: cid,
                message_id: mid,
                content: body_or_default(ev.body),
            },
            _ => CommentDecisionView::Ignore { reason: IgnoreReason::NotMapped },
        },
        CommentAction::Deleted => match (thread, mirror) {
            (Some(cid), Some(mid)) => CommentDecisionView::Delete {
                channel_id: cid,
                message_id: mid,
            },
            _ => CommentDecisionView::Ignore { reason: IgnoreReason::NotMapped },
        },
        CommentAction::Other => CommentDecisionView::Ignore { reason: IgnoreReason::UnknownAction },
    }
}

fn body_text(body: &Option<String>) -> (s: String)
    ensures
        s@ == body_or_default(*body),
{
    match body {
        Some(b) => b.clone(),
        None => String::from_str("..."),
    }
}

/// Decides one comment event from the two mappings the store reported.
pub fn decide_comment(ev: &CommentEvent, thread: Option<u64>, mirror: Option<u64>) -> (d:
    CommentDecision)
    ensures
        d@ == comment_decision(*ev, thread, mirror),
{
    match ev.action {
        CommentAction::Created => match thread {
            Some(cid) => CommentDecision::Send {
                channel_id: cid,
                content: String::from_str("**").concat(ev.author.as_str()).concat(
                    "** added a *comment*:\n",
                ).concat(body_text(&ev.body).as_str()).concat("\n\n> ").concat(
                    ev.html_url.as_str(),
                ),
            },
            None => CommentDecision::Ignore { reason: IgnoreReason::NotMapped },
        },
        CommentAction::Edited => match (thread, mirror) {
            (Some(cid), Some(mid)) => CommentDecision::Edit {
                channel_id: cid,
                message_id: mid,
                content: body_text(&ev.body),
            },
            _ => CommentDecision::Ignore { reason: IgnoreReason::NotMapped },
        },
        CommentAction::Deleted => match (thread, mirror) {
            (Some(cid), Some(mid)) => CommentDecision::Delete { channel_id: cid, message_id: mid },
            _ => CommentDecision::Ignore { reason: IgnoreReason::NotMapped },
        },
        CommentAction::Other => CommentDecision::Ignore { reason: IgnoreReason::UnknownAction },
    }
}

/// The gateway calls one comment event gives rise to.
pub open spec fn comment_calls(m: Map<Seq<char>, u64>, ev: CommentEvent) -> Seq<CallView> {
    match comment_decision(ev, thread_of(m, ev.issue_id), comment_msg_of(m, ev.comment_id)) {
        CommentDecisionView::Ignore { .. } => Seq::<CallView>::empty(),
        CommentDecisionView::Send { channel_id, content } => seq![
            CallView::SendMessage { channel_id, content },
        ],
        CommentDecisionView::Edit { channel_id, message_id, content } => seq![
            CallView::EditMessage { channel_id, message_id, content },
        ],
        CommentDecisionView::Delete { channel_id, message_id } => seq![
            CallView::DeleteMessage { channel_id, message_id },
        ],
    }
}

/// The store after one comment event: only a delivered mirror message
/// writes, and it writes exactly the comment's mapping.
pub open spec fn comment_store(m: Map<Seq<char>, u64>, ev: CommentEvent, sent: Option<u64>) -> Map<
    Seq<char>,
    u64,
> {
    match comment_decision(ev, thread_of(m, ev.issue_id), comment_msg_of(m, ev.comment_id)) {
        CommentDecisionView::Send { .. } => match sent {
            Some(mid) => m.insert(comment_key_seq(ev.comment_id), mid),
            None => m,
        },
        _ => m,
    }
}

/// Runs one comment event against the store model. `sent` is the id the
/// gateway granted for the mirror message, `None` for a failed or never
/// attempted send.
pub fn apply_comment_event(store: &mut MemStore, ev: &CommentEvent, sent: Option<u64>) -> (calls:
    Vec<GatewayCall>)
    ensures
        calls_view(calls@) == comment_calls(old(store)@, *ev),
        final(store)@ == comment_store(old(store)@, *ev, sent),
{
    let thread = store.get(&channel_key(ev.issue_id));
    let mirror = store.get(&comment_key(ev.comment_id));
    let d = decide_comment(ev, thread, mirror);
    let mut calls: Vec<GatewayCall> = Vec::new();
    match d {
        CommentDecision::Ignore { reason: _ } => {
            proof {
                assert(calls_view(calls@) =~= comment_calls(old(store)@, *ev));
            }
        },
        CommentDecision::Send { channel_id, content } => {
            calls.push(GatewayCall::SendMessage { channel_id, content });
            if let Some(mid) = sent {
                store.set(comment_key(ev.comment_id), mid);
            }
            proof {
                assert(calls_view(calls@) =~= comment_calls(old(store)@, *ev));
            }
        },
        CommentDecision::Edit { channel_id, message_id, content } => {
            calls.push(GatewayCall::EditMessage { channel_id, message_id, content });
            proof {
                assert(calls_view(calls@) =~= comment_calls(old(store)@, *ev));
            }
        },
        CommentDecision::Delete { channel_id, message_id } => {
            calls.push(GatewayCall::DeleteMessage { channel_id, message_id });
            proof {
                assert(calls_view(calls@) =~= comment_calls(old(store)@, *ev));
            }
        },
    }
    calls
}

} // verus!
