use std::collections::HashMap;
use veilid_news::consumer::{choose_candidate, resolution, resolve, Resolution};
use veilid_news::keys::RecordId;

fn record(n: u8) -> RecordId {
    RecordId { kind: *b"VLD0", value: [n; 32] }
}

#[test]
fn nothing_is_chosen_among_no_candidates() {
    assert_eq!(choose_candidate(&vec![]), None);
}

#[test]
fn the_only_candidate_is_chosen() {
    for _ in 0..20 {
        assert_eq!(choose_candidate(&vec![record(4)]), Some(record(4)));
    }
}

#[test]
fn the_choice_is_one_of_the_candidates() {
    let candidates = vec![record(1), record(2), record(3), record(2)];
    for _ in 0..200 {
        let choice = choose_candidate(&candidates).unwrap();
        assert!(candidates.contains(&choice));
    }
}

#[test]
fn every_candidate_is_chosen_sometimes_and_none_always() {
    let candidates = vec![record(1), record(2), record(3), record(4)];
    let trials = 4000;
    let mut counts: HashMap<RecordId, usize> = HashMap::new();
    for _ in 0..trials {
        *counts.entry(choose_candidate(&candidates).unwrap()).or_insert(0) += 1;
    }
    for candidate in &candidates {
        let count = counts.get(candidate).copied().unwrap_or(0);
        assert!(count > 0, "a candidate was never chosen");
        assert!(count < trials, "a candidate was always chosen");
        // each is expected 1000 times; the bounds are more than 15 standard deviations away
        assert!(count > 500 && count < 1500, "the choice is far from uniform: {}", count);
    }
}

#[test]
fn two_candidates_are_both_chosen() {
    let candidates = vec![record(1), record(2)];
    let mut first = 0;
    let mut second = 0;
    for _ in 0..1000 {
        match resolve("feed".to_string(), &candidates) {
            Resolution::Fetch { channel_link, record: chosen } => {
                assert_eq!(channel_link, "feed");
                if chosen == record(1) {
                    first += 1;
                } else {
                    assert_eq!(chosen, record(2));
                    second += 1;
                }
            }
            other => panic!("expected a record to fetch, got {:?}", other),
        }
    }
    assert!(first > 0 && second > 0);
}

#[test]
fn resolve_without_candidates_reports_no_known_host() {
    assert_eq!(
        resolve("feed".to_string(), &vec![]),
        Resolution::NoKnownHost { channel_link: "feed".to_string() }
    );
}

#[test]
fn resolution_follows_the_choice() {
    assert_eq!(
        resolution("feed".to_string(), Some(record(9))),
        Resolution::Fetch { channel_link: "feed".to_string(), record: record(9) }
    );
    assert_eq!(
        resolution("feed".to_string(), None),
        Resolution::NoKnownHost { channel_link: "feed".to_string() }
    );
}
