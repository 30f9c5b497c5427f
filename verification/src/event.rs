//! The decoded events the dispatchers consume and the configuration they
//! run under. Decoding raw webhook payloads into these records is the event
//! source's task; the core only ever sees plain values.

use vstd::prelude::*;

verus! {

/// The immutable per-process configuration: the home channel threads are
/// spawned in, and the watch-set of label names that makes an issue
/// eligible for mirroring (exact, case-sensitive matches).
pub struct Config {
    pub channel_id: u64,
    pub watched: Vec<String>,
}

/// The recognized actions of an issue event; `Other` stands for every
/// action kind the core logs and ignores.
#[derive(Clone, Copy, PartialEq, Eq, Structural, Debug)]
pub enum IssueAction {
    Opened,
    Closed,
    Reopened,
    Edited,
    Assigned,
    Unassigned,
    Labeled,
    Unlabeled,
    Other,
}

/// The recognized actions of a comment event.
#[derive(Clone, Copy, PartialEq, Eq, Structural, Debug)]
pub enum CommentAction {
    Created,
    Edited,
    Deleted,
    Other,
}

/// One issue as the event source reports it.
pub struct IssueRecord {
    /// The repository-wide numeric id; the store keys derive from it.
    pub id: u64,
    /// The human-facing issue number, part of the thread name.
    pub number: u64,
    pub title: String,
    pub body: Option<String>,
    /// The names of the labels currently on the issue.
    pub labels: Vec<String>,
    pub author: String,
    pub html_url: String,
}

/// One issue event: the action, the issue it concerns, and the action's
/// optional subjects (absent in a malformed payload, which the dispatcher
/// must survive).
pub struct IssueEvent {
    pub action: IssueAction,
    pub issue: IssueRecord,
    pub assignee: Option<String>,
    pub label: Option<String>,
}

/// One comment event on an issue.
pub struct CommentEvent {
    pub action: CommentAction,
    /// The id of the issue the comment sits on; locates the thread.
    pub issue_id: u64,
    /// The id of the comment itself; every message lookup keys on it.
    pub comment_id: u64,
    pub author: String,
    pub body: Option<String>,
    pub html_url: String,
}

/// A decoded webhook delivery: an issue event, a comment event, or a kind
/// the core ignores.
pub enum Event {
    Issue(IssueEvent),
    Comment(CommentEvent),
    Other,
}

} // verus!
