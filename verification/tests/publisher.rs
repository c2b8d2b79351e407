use veilid_news::keys::{KeyPair, RecordId};
use veilid_news::message::{AppMessage, MessageType, VeilidNewsMessage};
use veilid_news::publisher::{
    parse_sources, PublishError, Publisher, StoreOutcome, StoreRequest,
};

fn record(n: u8) -> RecordId {
    RecordId { kind: *b"VLD0", value: [n; 32] }
}

fn owner(n: u8) -> KeyPair {
    KeyPair { key: [n; 32], secret: [n.wrapping_add(1); 32] }
}

fn update_message(link: &str, holder: RecordId, sender: RecordId) -> AppMessage {
    AppMessage {
        data: VeilidNewsMessage {
            message_type: MessageType::NewsUpdate,
            channel_link: Some(link.to_string()),
            channel_dht: Some(holder),
            channel_dhts: None,
        },
        dht_record: sender,
        uuid: String::new(),
    }
}

#[test]
fn new_publisher_knows_no_feed() {
    let publisher = Publisher::new();
    assert_eq!(publisher.record_of("feed"), None);
    assert_eq!(publisher.plan("feed", vec![1, 2, 3]), StoreRequest::Create { value: vec![1, 2, 3] });
}

#[test]
fn publishing_twice_reuses_the_record() {
    let mut publisher = Publisher::new();
    let us = record(100);

    let first = publisher.plan("https://example.org/feed", b"one".to_vec());
    assert_eq!(first, StoreRequest::Create { value: b"one".to_vec() });
    let created = StoreOutcome::Created { record: record(1), owner: owner(1) };
    let announced = publisher.complete(us, "https://example.org/feed".to_string(), created);
    assert_eq!(announced, Ok(update_message("https://example.org/feed", record(1), us)));

    let second = publisher.plan("https://example.org/feed", b"two".to_vec());
    assert_eq!(
        second,
        StoreRequest::Overwrite { record: record(1), owner: owner(1), value: b"two".to_vec() }
    );
    let announced =
        publisher.complete(us, "https://example.org/feed".to_string(), StoreOutcome::Overwritten);
    assert_eq!(announced, Ok(update_message("https://example.org/feed", record(1), us)));
    assert_eq!(publisher.record_of("https://example.org/feed"), Some((record(1), owner(1))));
}

#[test]
fn feeds_have_records_of_their_own() {
    let mut publisher = Publisher::new();
    let us = record(100);
    for n in 0..10u8 {
        let link = format!("feed-{}", n);
        assert_eq!(publisher.plan(&link, vec![n]), StoreRequest::Create { value: vec![n] });
        let created = StoreOutcome::Created { record: record(n), owner: owner(n) };
        assert_eq!(publisher.complete(us, link.clone(), created), Ok(update_message(&link, record(n), us)));
    }
    for n in 0..10u8 {
        let link = format!("feed-{}", n);
        assert_eq!(publisher.record_of(&link), Some((record(n), owner(n))));
        assert_eq!(
            publisher.plan(&link, vec![]),
            StoreRequest::Overwrite { record: record(n), owner: owner(n), value: vec![] }
        );
    }
    assert_eq!(publisher.record_of("feed-10"), None);
}

#[test]
fn links_are_compared_as_they_are() {
    let mut publisher = Publisher::new();
    publisher.remember("feed".to_string(), record(1), owner(1));
    assert_eq!(publisher.record_of("feed"), Some((record(1), owner(1))));
    assert_eq!(publisher.record_of(" feed"), None);
    assert_eq!(publisher.record_of("Feed"), None);
    assert_eq!(publisher.record_of(""), None);
}

#[test]
fn remember_replaces_what_was_known_of_the_feed() {
    let mut publisher = Publisher::new();
    publisher.remember("a".to_string(), record(1), owner(1));
    publisher.remember("b".to_string(), record(2), owner(2));
    publisher.remember("a".to_string(), record(3), owner(3));
    assert_eq!(publisher.record_of("a"), Some((record(3), owner(3))));
    assert_eq!(publisher.record_of("b"), Some((record(2), owner(2))));
}

#[test]
fn failed_store_announces_nothing_and_remembers_nothing() {
    let mut publisher = Publisher::new();
    let announced = publisher.complete(record(100), "feed".to_string(), StoreOutcome::Failed);
    assert_eq!(announced, Err(PublishError::RecordStore));
    assert_eq!(publisher.record_of("feed"), None);
    assert_eq!(publisher.plan("feed", vec![]), StoreRequest::Create { value: vec![] });
}

#[test]
fn failed_overwrite_keeps_the_record() {
    let mut publisher = Publisher::new();
    publisher.remember("feed".to_string(), record(1), owner(1));
    let announced = publisher.complete(record(100), "feed".to_string(), StoreOutcome::Failed);
    assert_eq!(announced, Err(PublishError::RecordStore));
    assert_eq!(publisher.record_of("feed"), Some((record(1), owner(1))));
}

#[test]
fn overwrite_of_unknown_feed_announces_nothing() {
    let mut publisher = Publisher::new();
    let announced = publisher.complete(record(100), "feed".to_string(), StoreOutcome::Overwritten);
    assert_eq!(announced, Err(PublishError::NotPublished));
    assert_eq!(publisher.record_of("feed"), None);
}

#[test]
fn feed_without_link_is_not_announced() {
    let mut publisher = Publisher::new();
    let created = StoreOutcome::Created { record: record(1), owner: owner(1) };
    let announced = publisher.complete(record(100), String::new(), created);
    assert_eq!(announced, Err(PublishError::MissingLink));
    assert_eq!(publisher.record_of(""), Some((record(1), owner(1))));
}

#[test]
fn sources_are_the_trimmed_lines_that_are_not_blank() {
    let text = "https://a.example/rss\n\n  https://b.example/feed.xml \r\n\t\nhttps://c.example\n";
    assert_eq!(
        parse_sources(text),
        vec![
            "https://a.example/rss".to_string(),
            "https://b.example/feed.xml".to_string(),
            "https://c.example".to_string(),
        ]
    );
}

#[test]
fn sources_of_blank_text_are_none() {
    assert_eq!(parse_sources(""), Vec::<String>::new());
    assert_eq!(parse_sources("\n \n\t\n"), Vec::<String>::new());
}

#[test]
fn sources_keep_their_order_and_repeats() {
    assert_eq!(
        parse_sources("b\na\nb"),
        vec!["b".to_string(), "a".to_string(), "b".to_string()]
    );
    assert_eq!(parse_sources("only one"), vec!["only one".to_string()]);
}
