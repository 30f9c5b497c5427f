//! The guarantees of the synchronization core, proved once and for all
//! against the dispatcher specifications: out-of-scope and unmapped events
//! are silent, creation happens at most once per issue and establishes both
//! mappings, close/reopen rename as stated, and a comment's whole lifecycle
//! targets the one message recorded under the comment's id.

use vstd::prelude::*;
use crate::comment::{
    body_or_default, comment_calls, comment_decision, comment_note, comment_store,
};
use crate::event::{CommentAction, CommentEvent, Config, IssueAction, IssueEvent};
use crate::filter::spec_in_scope;
use crate::gateway::{creates_thread, CallView};
use crate::issue::{closed_name, issue_calls, issue_decision, issue_store, thread_title, RemoteIds};
use crate::keys::{
    anchor_of, channel_key_seq, comment_key_seq, comment_msg_of, lemma_key_families_disjoint,
    message_key_seq, thread_of,
};

verus! {

/// An issue event whose label set misses the watch-set — in particular one
/// with no labels at all — asks for no gateway call and writes nothing.
pub proof fn lemma_out_of_scope_issue_is_silent(
    cfg: Config,
    m: Map<Seq<char>, u64>,
    ev: IssueEvent,
    r: RemoteIds,
)
    requires
        !spec_in_scope(ev.issue.labels@, cfg.watched@),
    ensures
        issue_calls(cfg, m, ev, r) == Seq::<CallView>::empty(),
        issue_store(cfg, m, ev, r) == m,
{
    let d = issue_decision(cfg, ev, thread_of(m, ev.issue.id), anchor_of(m, ev.issue.id));
    assert(d is Ignore);
    assert(issue_calls(cfg, m, ev, r) =~= Seq::<CallView>::empty());
}

/// A qualifying creating action on an unmapped issue with a body, whose
/// remote calls were granted, runs exactly one creation sequence — one
/// send, one thread creation, one join — and leaves both of the issue's
/// mappings defined, holding exactly the granted ids.
pub proof fn lemma_creation_establishes_mappings(
    cfg: Config,
    m: Map<Seq<char>, u64>,
    ev: IssueEvent,
    r: RemoteIds,
    mid: u64,
    cid: u64,
)
    requires
        spec_in_scope(ev.issue.labels@, cfg.watched@),
        ev.action == IssueAction::Opened || ev.action == IssueAction::Labeled,
        thread_of(m, ev.issue.id) is None,
        ev.issue.body is Some,
        r.message_id == Some(mid),
        r.thread_id == Some(cid),
    ensures
        issue_calls(cfg, m, ev, r) == seq![
            CallView::SendMessage { channel_id: cfg.channel_id, content: ev.issue.body->0@ },
            CallView::CreateThread {
                channel_id: cfg.channel_id,
                message_id: mid,
                name: thread_title(ev.issue.title@, ev.issue.number),
            },
            CallView::JoinThread { thread_id: cid },
        ],
        thread_of(issue_store(cfg, m, ev, r), ev.issue.id) == Some(cid),
        anchor_of(issue_store(cfg, m, ev, r), ev.issue.id) == Some(mid),
{
    let d = issue_decision(cfg, ev, thread_of(m, ev.issue.id), anchor_of(m, ev.issue.id));
    assert(d is Create);
    assert(issue_calls(cfg, m, ev, r) =~= seq![
        CallView::SendMessage { channel_id: cfg.channel_id, content: ev.issue.body->0@ },
        CallView::CreateThread {
            channel_id: cfg.channel_id,
            message_id: mid,
            name: thread_title(ev.issue.title@, ev.issue.number),
        },
        CallView::JoinThread { thread_id: cid },
    ]);
    lemma_key_families_disjoint(ev.issue.id, ev.issue.id);
    let m2 = issue_store(cfg, m, ev, r);
    assert(m2 == m.insert(channel_key_seq(ev.issue.id), cid).insert(
        message_key_seq(ev.issue.id),
        mid,
    ));
}

/// Replaying any issue event against a store that already maps the issue
/// to a thread creates no further thread and writes nothing: creation is
/// idempotent.
pub proof fn lemma_mapped_issue_never_recreates(
    cfg: Config,
    m: Map<Seq<char>, u64>,
    ev: IssueEvent,
    r: RemoteIds,
)
    requires
        thread_of(m, ev.issue.id) is Some,
    ensures
        !creates_thread(issue_calls(cfg, m, ev, r)),
        issue_store(cfg, m, ev, r) == m,
{
    let d = issue_decision(cfg, ev, thread_of(m, ev.issue.id), anchor_of(m, ev.issue.id));
    assert(!(d is Create));
    let calls = issue_calls(cfg, m, ev, r);
    assert forall|i: int| 0 <= i < calls.len() implies !(calls[i] is CreateThread) by {}
}

/// Closing a mapped issue renames its thread to `"{title}(closed)"`, and a
/// later reopening renames it back to `"{title}"`; neither touches the
/// store.
pub proof fn lemma_close_then_reopen_restores_name(
    cfg: Config,
    m: Map<Seq<char>, u64>,
    closing: IssueEvent,
    reopening: IssueEvent,
    r1: RemoteIds,
    r2: RemoteIds,
    tid: u64,
)
    requires
        spec_in_scope(closing.issue.labels@, cfg.watched@),
        spec_in_scope(reopening.issue.labels@, cfg.watched@),
        closing.action == IssueAction::Closed,
        reopening.action == IssueAction::Reopened,
        reopening.issue.id == closing.issue.id,
        thread_of(m, closing.issue.id) == Some(tid),
    ensures
        issue_calls(cfg, m, closing, r1) == seq![
            CallView::RenameThread { thread_id: tid, name: closed_name(closing.issue.title@) },
        ],
        issue_store(cfg, m, closing, r1) == m,
        issue_calls(cfg, issue_store(cfg, m, closing, r1), reopening, r2) == seq![
            CallView::RenameThread { thread_id: tid, name: reopening.issue.title@ },
        ],
        issue_store(cfg, issue_store(cfg, m, closing, r1), reopening, r2) == m,
{
    assert(issue_calls(cfg, m, closing, r1) =~= seq![
        CallView::RenameThread { thread_id: tid, name: closed_name(closing.issue.title@) },
    ]);
    assert(issue_calls(cfg, m, reopening, r2) =~= seq![
        CallView::RenameThread { thread_id: tid, name: reopening.issue.title@ },
    ]);
}

/// On a mapped issue, a created comment is mirrored into the thread and
/// recorded under the comment's id; an edit of that same comment then
/// targets exactly the recorded message, and a deletion deletes it.
pub proof fn lemma_comment_lifecycle(
    m: Map<Seq<char>, u64>,
    created: CommentEvent,
    edited: CommentEvent,
    deleted: CommentEvent,
    cid: u64,
    mid: u64,
)
    requires
        created.action == CommentAction::Created,
        edited.action == CommentAction::Edited,
        deleted.action == CommentAction::Deleted,
        edited.issue_id == created.issue_id,
        deleted.issue_id == created.issue_id,
        edited.comment_id == created.comment_id,
        deleted.comment_id == created.comment_id,
        thread_of(m, created.issue_id) == Some(cid),
    ensures
        comment_calls(m, created) == seq![
            CallView::SendMessage {
                channel_id: cid,
                content: comment_note(created.author@, body_or_default(created.body), created.html_url@),
            },
        ],
        comment_msg_of(comment_store(m, created, Some(mid)), created.comment_id) == Some(mid),
        comment_calls(comment_store(m, created, Some(mid)), edited) == seq![
            CallView::EditMessage {
                channel_id: cid,
                message_id: mid,
                content: body_or_default(edited.body),
            },
        ],
        comment_calls(comment_store(m, created, Some(mid)), deleted) == seq![
            CallView::DeleteMessage { channel_id: cid, message_id: mid },
        ],
        comment_store(comment_store(m, created, Some(mid)), edited, Some(mid)) == comment_store(
            m,
            created,
            Some(mid),
        ),
{
    assert(comment_calls(m, created) =~= seq![
        CallView::SendMessage {
            channel_id: cid,
            content: comment_note(created.author@, body_or_default(created.body), created.html_url@),
        },
    ]);
    let m1 = comment_store(m, created, Some(mid));
    assert(m1 == m.insert(comment_key_seq(created.comment_id), mid));
    lemma_key_families_disjoint(created.issue_id, created.comment_id);
    assert(thread_of(m1, created.issue_id) == Some(cid));
    assert(comment_msg_of(m1, created.comment_id) == Some(mid));
    assert(comment_calls(m1, edited) =~= seq![
        CallView::EditMessage {
            channel_id: cid,
            message_id: mid,
            content: body_or_default(edited.body),
        },
    ]);
    assert(comment_calls(m1, deleted) =~= seq![
        CallView::DeleteMessage { channel_id: cid, message_id: mid },
    ]);
}

/// A comment event on an issue with no thread mapping asks for no gateway
/// call and writes nothing.
pub proof fn lemma_unmapped_comment_is_silent(
    m: Map<Seq<char>, u64>,
    ev: CommentEvent,
    sent: Option<u64>,
)
    requires
        thread_of(m, ev.issue_id) is None,
    ensures
        comment_calls(m, ev) == Seq::<CallView>::empty(),
        comment_store(m, ev, sent) == m,
{
    let d = comment_decision(ev, thread_of(m, ev.issue_id), comment_msg_of(m, ev.comment_id));
    assert(d is Ignore);
    assert(comment_calls(m, ev) =~= Seq::<CallView>::empty());
}

} // verus!
