use issue_sync::event::{CommentAction, CommentEvent, Config, Event, IssueAction, IssueEvent, IssueRecord};
use issue_sync::gateway::GatewayCall;
use issue_sync::issue::RemoteIds;
use issue_sync::router::route_event;
use issue_sync::store::MemStore;

fn config() -> Config {
    Config {
        channel_id: 99,
        watched: vec!["bug".to_string(), "feature".to_string()],
    }
}

fn mapped_store() -> MemStore {
    let mut store = MemStore::new();
    let ev = Event::Issue(IssueEvent {
        action: IssueAction::Labeled,
        issue: IssueRecord {
            id: 42,
            number: 7,
            title: "Crash on boot".to_string(),
            body: Some("repro steps".to_string()),
            labels: vec!["bug".to_string()],
            author: "ada".to_string(),
            html_url: "https://example.test/i/7".to_string(),
        },
        assignee: None,
        label: None,
    });
    let remote = RemoteIds {
        message_id: Some(1001),
        thread_id: Some(2002),
    };
    route_event(&config(), &mut store, &ev, remote);
    store
}

fn comment_event(action: CommentAction, comment_id: u64, body: Option<&str>) -> Event {
    Event::Comment(CommentEvent {
        action,
        issue_id: 42,
        comment_id,
        author: "linus".to_string(),
        body: body.map(|s| s.to_string()),
        html_url: "https://example.test/i/7#c5".to_string(),
    })
}

fn sent(message_id: u64) -> RemoteIds {
    RemoteIds {
        message_id: Some(message_id),
        thread_id: None,
    }
}

fn nothing() -> RemoteIds {
    RemoteIds {
        message_id: None,
        thread_id: None,
    }
}

#[test]
fn created_comment_is_mirrored_and_recorded() {
    let mut store = mapped_store();
    let calls = route_event(
        &config(),
        &mut store,
        &comment_event(CommentAction::Created, 5, Some("same here")),
        sent(7007),
    );
    assert_eq!(
        calls,
        vec![GatewayCall::SendMessage {
            channel_id: 2002,
            content: "**linus** added a *comment*:\nsame here\n\n> https://example.test/i/7#c5"
                .to_string(),
        }]
    );
    assert_eq!(store.get(&"5:cmt_msg".to_string()), Some(7007));
}

#[test]
fn absent_comment_body_defaults_to_ellipsis() {
    let mut store = mapped_store();
    let calls = route_event(
        &config(),
        &mut store,
        &comment_event(CommentAction::Created, 5, None),
        sent(7007),
    );
    assert_eq!(
        calls,
        vec![GatewayCall::SendMessage {
            channel_id: 2002,
            content: "**linus** added a *comment*:\n...\n\n> https://example.test/i/7#c5"
                .to_string(),
        }]
    );
}

#[test]
fn failed_mirror_send_records_nothing() {
    let mut store = mapped_store();
    let calls = route_event(
        &config(),
        &mut store,
        &comment_event(CommentAction::Created, 5, Some("same here")),
        nothing(),
    );
    assert_eq!(calls.len(), 1);
    assert_eq!(store.get(&"5:cmt_msg".to_string()), None);
}

#[test]
fn edited_comment_targets_its_own_message() {
    let mut store = mapped_store();
    route_event(
        &config(),
        &mut store,
        &comment_event(CommentAction::Created, 5, Some("same here")),
        sent(7007),
    );
    let calls = route_event(
        &config(),
        &mut store,
        &comment_event(CommentAction::Edited, 5, Some("never mind")),
        nothing(),
    );
    assert_eq!(
        calls,
        vec![GatewayCall::EditMessage {
            channel_id: 2002,
            message_id: 7007,
            content: "never mind".to_string(),
        }]
    );
}

#[test]
fn deleted_comment_deletes_its_own_message() {
    let mut store = mapped_store();
    route_event(
        &config(),
        &mut store,
        &comment_event(CommentAction::Created, 5, Some("same here")),
        sent(7007),
    );
    let calls = route_event(
        &config(),
        &mut store,
        &comment_event(CommentAction::Deleted, 5, None),
        nothing(),
    );
    assert_eq!(
        calls,
        vec![GatewayCall::DeleteMessage {
            channel_id: 2002,
            message_id: 7007,
        }]
    );
}

#[test]
fn lookups_key_on_comment_id_not_issue_id() {
    let mut store = mapped_store();
    route_event(
        &config(),
        &mut store,
        &comment_event(CommentAction::Created, 5, Some("same here")),
        sent(7007),
    );
    // A different comment of the same issue has no mirror message yet, so
    // editing it must touch nothing, even though comment 5 is recorded.
    let calls = route_event(
        &config(),
        &mut store,
        &comment_event(CommentAction::Edited, 6, Some("other")),
        nothing(),
    );
    assert!(calls.is_empty());
}

#[test]
fn comment_on_unmapped_issue_is_silent() {
    let mut store = MemStore::new();
    let calls = route_event(
        &config(),
        &mut store,
        &comment_event(CommentAction::Created, 5, Some("same here")),
        sent(7007),
    );
    assert!(calls.is_empty());
    assert_eq!(store.get(&"5:cmt_msg".to_string()), None);
}

#[test]
fn unknown_comment_action_is_ignored() {
    let mut store = mapped_store();
    let calls = route_event(
        &config(),
        &mut store,
        &comment_event(CommentAction::Other, 5, None),
        nothing(),
    );
    assert!(calls.is_empty());
}
