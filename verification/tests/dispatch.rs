use issue_sync::event::{Config, Event, IssueAction, IssueEvent, IssueRecord};
use issue_sync::gateway::GatewayCall;
use issue_sync::issue::RemoteIds;
use issue_sync::router::route_event;
use issue_sync::store::MemStore;

fn config() -> Config {
    Config {
        channel_id: 99,
        watched: vec!["bug".to_string(), "feature".to_string()],
    }
}

fn issue_42() -> IssueRecord {
    IssueRecord {
        id: 42,
        number: 7,
        title: "Crash on boot".to_string(),
        body: Some("repro steps".to_string()),
        labels: vec!["bug".to_string()],
        author: "ada".to_string(),
        html_url: "https://example.test/i/7".to_string(),
    }
}

fn issue_event(action: IssueAction) -> Event {
    Event::Issue(IssueEvent {
        action,
        issue: issue_42(),
        assignee: None,
        label: None,
    })
}

fn granted(message_id: u64, thread_id: u64) -> RemoteIds {
    RemoteIds {
        message_id: Some(message_id),
        thread_id: Some(thread_id),
    }
}

fn nothing_granted() -> RemoteIds {
    RemoteIds {
        message_id: None,
        thread_id: None,
    }
}

fn mapped_store() -> MemStore {
    let mut store = MemStore::new();
    let calls = route_event(
        &config(),
        &mut store,
        &issue_event(IssueAction::Labeled),
        granted(1001, 2002),
    );
    assert_eq!(calls.len(), 3);
    store
}

#[test]
fn labeled_creation_sequence() {
    let mut store = MemStore::new();
    let calls = route_event(
        &config(),
        &mut store,
        &issue_event(IssueAction::Labeled),
        granted(1001, 2002),
    );
    assert_eq!(
        calls,
        vec![
            GatewayCall::SendMessage {
                channel_id: 99,
                content: "repro steps".to_string(),
            },
            GatewayCall::CreateThread {
                channel_id: 99,
                message_id: 1001,
                name: "Crash on boot#7".to_string(),
            },
            GatewayCall::JoinThread { thread_id: 2002 },
        ]
    );
    assert_eq!(store.get(&"42:channel".to_string()), Some(2002));
    assert_eq!(store.get(&"42:message".to_string()), Some(1001));
}

#[test]
fn opened_also_creates() {
    let mut store = MemStore::new();
    let calls = route_event(
        &config(),
        &mut store,
        &issue_event(IssueAction::Opened),
        granted(1001, 2002),
    );
    assert_eq!(calls.len(), 3);
    assert_eq!(store.get(&"42:channel".to_string()), Some(2002));
}

#[test]
fn creation_without_body_is_skipped() {
    let mut store = MemStore::new();
    let mut issue = issue_42();
    issue.body = None;
    let ev = Event::Issue(IssueEvent {
        action: IssueAction::Labeled,
        issue,
        assignee: None,
        label: None,
    });
    let calls = route_event(&config(), &mut store, &ev, granted(1001, 2002));
    assert!(calls.is_empty());
    assert_eq!(store.get(&"42:channel".to_string()), None);
}

#[test]
fn failed_send_abandons_creation() {
    let mut store = MemStore::new();
    let calls = route_event(
        &config(),
        &mut store,
        &issue_event(IssueAction::Labeled),
        nothing_granted(),
    );
    assert_eq!(
        calls,
        vec![GatewayCall::SendMessage {
            channel_id: 99,
            content: "repro steps".to_string(),
        }]
    );
    assert_eq!(store.get(&"42:channel".to_string()), None);
    assert_eq!(store.get(&"42:message".to_string()), None);
}

#[test]
fn failed_thread_creation_writes_nothing() {
    let mut store = MemStore::new();
    let remote = RemoteIds {
        message_id: Some(1001),
        thread_id: None,
    };
    let calls = route_event(&config(), &mut store, &issue_event(IssueAction::Labeled), remote);
    assert_eq!(calls.len(), 2);
    assert_eq!(store.get(&"42:channel".to_string()), None);
    assert_eq!(store.get(&"42:message".to_string()), None);
}

#[test]
fn unwatched_issue_is_silent() {
    let mut store = MemStore::new();
    let mut issue = issue_42();
    issue.labels = vec!["doc".to_string()];
    let ev = Event::Issue(IssueEvent {
        action: IssueAction::Labeled,
        issue,
        assignee: None,
        label: None,
    });
    let calls = route_event(&config(), &mut store, &ev, granted(1001, 2002));
    assert!(calls.is_empty());
    assert_eq!(store.get(&"42:channel".to_string()), None);
    assert_eq!(store.get(&"42:message".to_string()), None);
}

#[test]
fn unlabeled_issue_is_silent() {
    let mut store = MemStore::new();
    let mut issue = issue_42();
    issue.labels = vec![];
    let ev = Event::Issue(IssueEvent {
        action: IssueAction::Opened,
        issue,
        assignee: None,
        label: None,
    });
    let calls = route_event(&config(), &mut store, &ev, granted(1001, 2002));
    assert!(calls.is_empty());
    assert_eq!(store.get(&"42:channel".to_string()), None);
}

#[test]
fn replayed_creation_makes_no_second_thread() {
    let mut store = mapped_store();
    let ev = Event::Issue(IssueEvent {
        action: IssueAction::Labeled,
        issue: issue_42(),
        assignee: None,
        label: Some("bug".to_string()),
    });
    let calls = route_event(&config(), &mut store, &ev, granted(5005, 6006));
    assert_eq!(
        calls,
        vec![GatewayCall::SendMessage {
            channel_id: 2002,
            content: "Labeled: bug".to_string(),
        }]
    );
    assert_eq!(store.get(&"42:channel".to_string()), Some(2002));
    assert_eq!(store.get(&"42:message".to_string()), Some(1001));
}

#[test]
fn opened_on_mapped_issue_is_noop() {
    let mut store = mapped_store();
    let calls = route_event(
        &config(),
        &mut store,
        &issue_event(IssueAction::Opened),
        granted(5005, 6006),
    );
    assert!(calls.is_empty());
    assert_eq!(store.get(&"42:channel".to_string()), Some(2002));
    assert_eq!(store.get(&"42:message".to_string()), Some(1001));
}

#[test]
fn closed_renames_thread() {
    let mut store = mapped_store();
    let calls = route_event(
        &config(),
        &mut store,
        &issue_event(IssueAction::Closed),
        nothing_granted(),
    );
    assert_eq!(
        calls,
        vec![GatewayCall::RenameThread {
            thread_id: 2002,
            name: "Crash on boot(closed)".to_string(),
        }]
    );
    assert_eq!(store.get(&"42:channel".to_string()), Some(2002));
    assert_eq!(store.get(&"42:message".to_string()), Some(1001));
}

#[test]
fn reopened_restores_thread_name() {
    let mut store = mapped_store();
    route_event(&config(), &mut store, &issue_event(IssueAction::Closed), nothing_granted());
    let calls = route_event(
        &config(),
        &mut store,
        &issue_event(IssueAction::Reopened),
        nothing_granted(),
    );
    assert_eq!(
        calls,
        vec![GatewayCall::RenameThread {
            thread_id: 2002,
            name: "Crash on boot".to_string(),
        }]
    );
}

#[test]
fn closed_before_creation_is_silent() {
    let mut store = MemStore::new();
    let calls = route_event(
        &config(),
        &mut store,
        &issue_event(IssueAction::Closed),
        nothing_granted(),
    );
    assert!(calls.is_empty());
}

#[test]
fn edited_retargets_anchor_message() {
    let mut store = mapped_store();
    let calls = route_event(
        &config(),
        &mut store,
        &issue_event(IssueAction::Edited),
        nothing_granted(),
    );
    assert_eq!(
        calls,
        vec![GatewayCall::EditMessage {
            channel_id: 2002,
            message_id: 1001,
            content: "Crash on boot".to_string(),
        }]
    );
}

#[test]
fn assignment_posts_notification() {
    let mut store = mapped_store();
    let ev = Event::Issue(IssueEvent {
        action: IssueAction::Assigned,
        issue: issue_42(),
        assignee: Some("grace".to_string()),
        label: None,
    });
    let calls = route_event(&config(), &mut store, &ev, nothing_granted());
    assert_eq!(
        calls,
        vec![GatewayCall::SendMessage {
            channel_id: 2002,
            content: "Assigned: grace".to_string(),
        }]
    );
}

#[test]
fn unassignment_posts_notification() {
    let mut store = mapped_store();
    let ev = Event::Issue(IssueEvent {
        action: IssueAction::Unassigned,
        issue: issue_42(),
        assignee: Some("grace".to_string()),
        label: None,
    });
    let calls = route_event(&config(), &mut store, &ev, nothing_granted());
    assert_eq!(
        calls,
        vec![GatewayCall::SendMessage {
            channel_id: 2002,
            content: "Unassigned: grace".to_string(),
        }]
    );
}

#[test]
fn missing_assignee_is_skipped_not_fatal() {
    let mut store = mapped_store();
    let ev = Event::Issue(IssueEvent {
        action: IssueAction::Assigned,
        issue: issue_42(),
        assignee: None,
        label: None,
    });
    let calls = route_event(&config(), &mut store, &ev, nothing_granted());
    assert!(calls.is_empty());
}

#[test]
fn unlabeling_posts_notification() {
    let mut store = mapped_store();
    let ev = Event::Issue(IssueEvent {
        action: IssueAction::Unlabeled,
        issue: issue_42(),
        assignee: None,
        label: Some("bug".to_string()),
    });
    let calls = route_event(&config(), &mut store, &ev, nothing_granted());
    assert_eq!(
        calls,
        vec![GatewayCall::SendMessage {
            channel_id: 2002,
            content: "Unlabeled: bug".to_string(),
        }]
    );
}

#[test]
fn missing_label_is_skipped_not_fatal() {
    let mut store = mapped_store();
    let ev = Event::Issue(IssueEvent {
        action: IssueAction::Unlabeled,
        issue: issue_42(),
        assignee: None,
        label: None,
    });
    let calls = route_event(&config(), &mut store, &ev, nothing_granted());
    assert!(calls.is_empty());
}

#[test]
fn unknown_issue_action_is_ignored() {
    let mut store = mapped_store();
    let calls = route_event(
        &config(),
        &mut store,
        &issue_event(IssueAction::Other),
        nothing_granted(),
    );
    assert!(calls.is_empty());
}

#[test]
fn unknown_event_kind_is_ignored() {
    let mut store = MemStore::new();
    let calls = route_event(&config(), &mut store, &Event::Other, granted(1, 2));
    assert!(calls.is_empty());
    assert_eq!(store.get(&"42:channel".to_string()), None);
}
