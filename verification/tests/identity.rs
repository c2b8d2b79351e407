use veilid_news::identity::{Identity, KeyLoadError, KeyPart, Stored};
use veilid_news::keys::{KeyPair, RecordId};
use veilid_news::publisher::PUBLISH_INTERVAL_SECONDS;

fn key(n: u8) -> Stored {
    Stored::Key([n; 32])
}

#[test]
fn all_keys_make_an_identity() {
    let identity = Identity::load(*b"VLD0", key(1), key(2), key(3), key(4), key(5));
    assert_eq!(
        identity,
        Ok(Identity {
            node_keypair: KeyPair { key: [1; 32], secret: [2; 32] },
            dht_key: RecordId { kind: *b"VLD0", value: [3; 32] },
            dht_keypair: KeyPair { key: [4; 32], secret: [5; 32] },
        })
    );
}

#[test]
fn a_missing_key_stops_the_load() {
    let parts = [
        KeyPart::NodeKey,
        KeyPart::NodeSecret,
        KeyPart::RecordKey,
        KeyPart::OwnerKey,
        KeyPart::OwnerSecret,
    ];
    for (i, part) in parts.into_iter().enumerate() {
        let mut stored = [key(1), key(2), key(3), key(4), key(5)];
        stored[i] = Stored::Missing;
        assert_eq!(
            Identity::load(*b"VLD0", stored[0], stored[1], stored[2], stored[3], stored[4]),
            Err(KeyLoadError::Missing(part))
        );
    }
}

#[test]
fn a_file_that_holds_no_key_stops_the_load() {
    let parts = [
        KeyPart::NodeKey,
        KeyPart::NodeSecret,
        KeyPart::RecordKey,
        KeyPart::OwnerKey,
        KeyPart::OwnerSecret,
    ];
    for (i, part) in parts.into_iter().enumerate() {
        let mut stored = [key(1), key(2), key(3), key(4), key(5)];
        stored[i] = Stored::Invalid;
        assert_eq!(
            Identity::load(*b"VLD0", stored[0], stored[1], stored[2], stored[3], stored[4]),
            Err(KeyLoadError::Invalid(part))
        );
    }
}

#[test]
fn the_first_fault_is_reported() {
    assert_eq!(
        Identity::load(*b"VLD0", key(1), Stored::Invalid, Stored::Missing, Stored::Missing, key(5)),
        Err(KeyLoadError::Invalid(KeyPart::NodeSecret))
    );
    // the owner's keys are looked at before the record
    assert_eq!(
        Identity::load(*b"VLD0", key(1), key(2), Stored::Missing, key(4), Stored::Invalid),
        Err(KeyLoadError::Invalid(KeyPart::OwnerSecret))
    );
    assert_eq!(
        Identity::load(
            *b"VLD0",
            Stored::Missing,
            Stored::Missing,
            Stored::Missing,
            Stored::Missing,
            Stored::Missing
        ),
        Err(KeyLoadError::Missing(KeyPart::NodeKey))
    );
}

#[test]
fn feeds_are_published_every_five_minutes() {
    assert_eq!(PUBLISH_INTERVAL_SECONDS, 5 * 60);
}
