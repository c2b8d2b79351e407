use std::collections::HashSet;
use veilid_news::consumer::Resolution;
use veilid_news::handler::{Action, Dropped, VeilidNewsApp};
use veilid_news::keys::RecordId;
use veilid_news::message::{
    Announcement, AppMessage, MessageType, ProtocolError, VeilidNewsMessage,
};

fn record(n: u8) -> RecordId {
    RecordId { kind: *b"VLD0", value: [n; 32] }
}

fn update(link: &str, holder: RecordId, sender: RecordId) -> AppMessage {
    Announcement::update(link.to_string(), holder).unwrap().into_message().from_sender(sender)
}

fn request(link: &str, sender: RecordId) -> AppMessage {
    Announcement::request(link.to_string()).unwrap().into_message().from_sender(sender)
}

fn response(link: &str, candidates: Vec<RecordId>, sender: RecordId) -> AppMessage {
    Announcement::response(link.to_string(), Some(candidates))
        .unwrap()
        .into_message()
        .from_sender(sender)
}

fn candidates_of(action: Action) -> (RecordId, AppMessage) {
    match action {
        Action::Reply { to, message } => (to, message),
        other => panic!("expected a reply, got {:?}", other),
    }
}

#[test]
fn new_app_has_an_empty_registry() {
    let app = VeilidNewsApp::new(record(100));
    assert_eq!(app.our_dht_key, record(100));
    assert_eq!(app.channel_registry.len(), 0);
}

#[test]
fn update_is_appended_with_trimmed_link_and_current_time() {
    let mut app = VeilidNewsApp::new(record(100));
    let action = app.on_message(update(" https://example.org/feed ", record(1), record(50)), true);
    assert_eq!(action, Action::Registered { entries: 1 });
    assert_eq!(app.channel_registry.len(), 1);
    let entry = app.channel_registry.entry(0).unwrap();
    assert_eq!(entry.channel_link, "https://example.org/feed");
    assert_eq!(entry.record, record(1));
    // the clock is read: after 2020-01-01, and not far from the system's time
    assert!(entry.observed_at > 1_577_836_800_000);
    let now = std::time::SystemTime::now()
        .duration_since(std::time::UNIX_EPOCH)
        .unwrap()
        .as_millis() as i64;
    assert!((now - entry.observed_at).abs() < 60_000);
}

#[test]
fn updates_are_kept_in_the_order_they_were_handled() {
    let mut app = VeilidNewsApp::new(record(100));
    assert_eq!(app.on_message(update("a", record(1), record(50)), true), Action::Registered { entries: 1 });
    assert_eq!(app.on_message(update("b", record(2), record(51)), true), Action::Registered { entries: 2 });
    assert_eq!(app.on_message(update("a", record(1), record(50)), true), Action::Registered { entries: 3 });
    assert_eq!(app.channel_registry.entry(0).unwrap().channel_link, "a");
    assert_eq!(app.channel_registry.entry(1).unwrap().channel_link, "b");
    assert_eq!(app.channel_registry.entry(2).unwrap().channel_link, "a");
    assert!(app.channel_registry.entry(0).unwrap().observed_at <= app.channel_registry.entry(2).unwrap().observed_at);
}

#[test]
fn request_after_updates_returns_the_set_of_registered_records() {
    let mut app = VeilidNewsApp::new(record(100));
    app.on_message(update("feed", record(1), record(50)), true);
    app.on_message(update("other", record(2), record(51)), true);
    app.on_message(update(" feed\n", record(3), record(52)), true);
    app.on_message(update("feed", record(1), record(50)), true);
    let (to, message) = candidates_of(app.on_message(request("feed", record(60)), true));
    assert_eq!(to, record(60));
    assert_eq!(message.dht_record, record(100));
    assert_eq!(message.uuid, "");
    assert_eq!(message.data.message_type, MessageType::NewsResponse);
    assert_eq!(message.data.channel_link, Some("feed".to_string()));
    assert_eq!(message.data.channel_dht, None);
    let found: HashSet<RecordId> = message.data.channel_dhts.clone().unwrap().into_iter().collect();
    let expected: HashSet<RecordId> = [record(1), record(3)].into_iter().collect();
    assert_eq!(found, expected);
    assert_eq!(message.data.channel_dhts, Some(vec![record(1), record(3), record(1)]));
    assert_eq!(app.channel_registry.len(), 4);
}

#[test]
fn request_matches_after_trimming_only() {
    let mut app = VeilidNewsApp::new(record(100));
    app.on_message(update("foo", record(1), record(50)), true);
    let (_, message) = candidates_of(app.on_message(request(" foo ", record(60)), true));
    assert_eq!(message.data.channel_link, Some(" foo ".to_string()));
    assert_eq!(message.data.channel_dhts, Some(vec![record(1)]));
    let (_, message) = candidates_of(app.on_message(request(" Foo", record(60)), true));
    assert_eq!(message.data.channel_dhts, Some(vec![]));
    let (_, message) = candidates_of(app.on_message(request("foo bar", record(60)), true));
    assert_eq!(message.data.channel_dhts, Some(vec![]));
}

#[test]
fn request_for_unregistered_link_gets_an_empty_response() {
    let mut app = VeilidNewsApp::new(record(100));
    app.on_message(update("foo", record(1), record(50)), true);
    let action = app.on_message(request("nobody-has-this", record(60)), true);
    assert_eq!(
        action,
        Action::Reply {
            to: record(60),
            message: AppMessage {
                data: VeilidNewsMessage {
                    message_type: MessageType::NewsResponse,
                    channel_link: Some("nobody-has-this".to_string()),
                    channel_dht: None,
                    channel_dhts: Some(vec![]),
                },
                dht_record: record(100),
                uuid: String::new(),
            },
        }
    );
}

#[test]
fn response_with_candidates_asks_to_fetch_one_of_them() {
    let mut app = VeilidNewsApp::new(record(100));
    let candidates = vec![record(1), record(2), record(3)];
    for _ in 0..100 {
        match app.on_message(response("feed", candidates.clone(), record(70)), true) {
            Action::Resolve { resolution: Resolution::Fetch { channel_link, record } } => {
                assert_eq!(channel_link, "feed");
                assert!(candidates.contains(&record));
            }
            other => panic!("expected a record to fetch, got {:?}", other),
        }
    }
    assert_eq!(app.channel_registry.len(), 0);
}

#[test]
fn response_without_candidates_means_no_known_host() {
    let mut app = VeilidNewsApp::new(record(100));
    let action = app.on_message(response("feed", vec![], record(70)), true);
    assert_eq!(
        action,
        Action::Resolve { resolution: Resolution::NoKnownHost { channel_link: "feed".to_string() } }
    );
}

#[test]
fn message_without_route_is_dropped() {
    let mut app = VeilidNewsApp::new(record(100));
    let action = app.on_message(update("feed", record(1), record(50)), false);
    assert_eq!(action, Action::Drop { reason: Dropped::NoRoute });
    assert_eq!(app.channel_registry.len(), 0);
    let action = app.on_message(request("feed", record(50)), false);
    assert_eq!(action, Action::Drop { reason: Dropped::NoRoute });
    let action = app.on_message(response("feed", vec![record(1)], record(50)), false);
    assert_eq!(action, Action::Drop { reason: Dropped::NoRoute });
}

#[test]
fn malformed_message_is_dropped() {
    let mut app = VeilidNewsApp::new(record(100));
    let no_link = AppMessage {
        data: VeilidNewsMessage {
            message_type: MessageType::NewsUpdate,
            channel_link: None,
            channel_dht: Some(record(1)),
            channel_dhts: None,
        },
        dht_record: record(50),
        uuid: String::new(),
    };
    assert_eq!(
        app.on_message(no_link, true),
        Action::Drop { reason: Dropped::Malformed(ProtocolError::MissingLink) }
    );
    let no_record = AppMessage {
        data: VeilidNewsMessage {
            message_type: MessageType::NewsUpdate,
            channel_link: Some("feed".to_string()),
            channel_dht: None,
            channel_dhts: None,
        },
        dht_record: record(50),
        uuid: String::new(),
    };
    assert_eq!(
        app.on_message(no_record, true),
        Action::Drop { reason: Dropped::Malformed(ProtocolError::MissingRecord) }
    );
    let no_candidates = AppMessage {
        data: VeilidNewsMessage {
            message_type: MessageType::NewsResponse,
            channel_link: Some("feed".to_string()),
            channel_dht: None,
            channel_dhts: None,
        },
        dht_record: record(50),
        uuid: String::new(),
    };
    assert_eq!(
        app.on_message(no_candidates, true),
        Action::Drop { reason: Dropped::Malformed(ProtocolError::MissingCandidates) }
    );
    let empty_request = AppMessage {
        data: VeilidNewsMessage {
            message_type: MessageType::NewsRequest,
            channel_link: Some(String::new()),
            channel_dht: None,
            channel_dhts: None,
        },
        dht_record: record(50),
        uuid: String::new(),
    };
    assert_eq!(
        app.on_message(empty_request, true),
        Action::Drop { reason: Dropped::Malformed(ProtocolError::MissingLink) }
    );
    assert_eq!(app.channel_registry.len(), 0);
}

#[test]
fn request_handled_after_update_sees_the_whole_entry() {
    let mut app = VeilidNewsApp::new(record(100));
    for n in 0..20u8 {
        app.on_message(update("feed", record(n), record(50)), true);
        let (_, message) = candidates_of(app.on_message(request("feed", record(60)), true));
        let found = message.data.channel_dhts.unwrap();
        assert_eq!(found.len(), n as usize + 1);
        assert_eq!(found[n as usize], record(n));
        let entry = app.channel_registry.entry(n as usize).unwrap();
        assert_eq!(entry.channel_link, "feed");
        assert_eq!(entry.record, record(n));
    }
}
