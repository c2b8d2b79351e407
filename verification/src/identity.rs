//! The keys that a node starts with: its identity on the network, its own
//! record, to which replies are routed, and the key pair that owns that
//! record. They are made once and read again at every later start.

use vstd::prelude::*;
use crate::keys::{KeyPair, RecordId};

verus! {

/// One of the keys that a node keeps on disk.
#[derive(Clone, Copy, Debug, PartialEq, Eq, Structural)]
pub enum KeyPart {
    /// The public key of the node's identity.
    NodeKey,
    /// The secret of the node's identity.
    NodeSecret,
    /// The identifier of the node's own record.
    RecordKey,
    /// The public key of the owner of the node's own record.
    OwnerKey,
    /// The secret of the owner of the node's own record.
    OwnerSecret,
}

/// What was found on disk for one key.
#[derive(Clone, Copy, Debug, PartialEq, Eq)]
pub enum Stored {
    /// There is no such file.
    Missing,
    /// The file does not hold a key.
    Invalid,
    /// The key that the file holds.
    Key([u8; 32]),
}

/// Why a node cannot start: a key is missing, or what is stored for it is no
/// key. A node does not start with a part of its keys.
#[derive(Clone, Copy, Debug, PartialEq, Eq, Structural)]
pub enum KeyLoadError {
    Missing(KeyPart),
    Invalid(KeyPart),
}

/// The keys of a node.
#[derive(Clone, Copy, Debug, PartialEq, Eq)]
pub struct Identity {
    pub node_keypair: KeyPair,
    pub dht_key: RecordId,
    pub dht_keypair: KeyPair,
}

/// What is wrong with the key `part`, if anything.
pub open spec fn fault(part: KeyPart, stored: Stored) -> Option<KeyLoadError> {
    match stored {
        Stored::Missing => Some(KeyLoadError::Missing(part)),
        Stored::Invalid => Some(KeyLoadError::Invalid(part)),
        Stored::Key(_) => None,
    }
}

/// The keys of a node as they are loaded, or the first fault, in the order
/// node key, node secret, owner key, owner secret, record.
pub open spec fn loaded(
    kind: [u8; 4],
    node_key: Stored,
    node_secret: Stored,
    record_key: Stored,
    owner_key: Stored,
    owner_secret: Stored,
) -> Result<Identity, KeyLoadError> {
    if fault(KeyPart::NodeKey, node_key) is Some {
        Err(fault(KeyPart::NodeKey, node_key)->Some_0)
    } else if fault(KeyPart::NodeSecret, node_secret) is Some {
        Err(fault(KeyPart::NodeSecret, node_secret)->Some_0)
    } else if fault(KeyPart::OwnerKey, owner_key) is Some {
        Err(fault(KeyPart::OwnerKey, owner_key)->Some_0)
    } else if fault(KeyPart::OwnerSecret, owner_secret) is Some {
        Err(fault(KeyPart::OwnerSecret, owner_secret)->Some_0)
    } else if fault(KeyPart::RecordKey, record_key) is Some {
        Err(fault(KeyPart::RecordKey, record_key)->Some_0)
    } else {
        Ok(
            Identity {
                node_keypair: KeyPair { key: node_key->Key_0, secret: node_secret->Key_0 },
                dht_key: RecordId { kind, value: record_key->Key_0 },
                dht_keypair: KeyPair { key: owner_key->Key_0, secret: owner_secret->Key_0 },
            },
        )
    }
}

/// The key that is stored, or what is wrong with the key `part`.
fn key_of(part: KeyPart, stored: Stored) -> (r: Result<[u8; 32], KeyLoadError>)
    ensures
        match r {
            Ok(key) => fault(part, stored) is None && stored == Stored::Key(key),
            Err(e) => fault(part, stored) == Some(e),
        },
{
    match stored {
        Stored::Missing => Err(KeyLoadError::Missing(part)),
        Stored::Invalid => Err(KeyLoadError::Invalid(part)),
        Stored::Key(key) => Ok(key),
    }
}

impl Identity {
    /// The keys of a node from what is stored for each, with `kind` as the
    /// cryptosystem of the node's record. All five keys must be there.
    pub fn load(
        kind: [u8; 4],
        node_key: Stored,
        node_secret: Stored,
        record_key: Stored,
        owner_key: Stored,
        owner_secret: Stored,
    ) -> (r: Result<Identity, KeyLoadError>)
        ensures
            r == loaded(kind, node_key, node_secret, record_key, owner_key, owner_secret),
    {
        let key = match key_of(KeyPart::NodeKey, node_key) {
            Ok(key) => key,
            Err(e) => {
                return Err(e);
            },
        };
        let secret = match key_of(KeyPart::NodeSecret, node_secret) {
            Ok(key) => key,
            Err(e) => {
                return Err(e);
            },
        };
        let node_keypair = KeyPair { key, secret };
        let key = match key_of(KeyPart::OwnerKey, owner_key) {
            Ok(key) => key,
            Err(e) => {
                return Err(e);
            },
        };
        let secret = match key_of(KeyPart::OwnerSecret, owner_secret) {
            Ok(key) => key,
            Err(e) => {
                return Err(e);
            },
        };
        let dht_keypair = KeyPair { key, secret };
        let value = match key_of(KeyPart::RecordKey, record_key) {
            Ok(key) => key,
            Err(e) => {
                return Err(e);
            },
        };
        Ok(Identity { node_keypair, dht_key: RecordId { kind, value }, dht_keypair })
    }
}

/// Loading succeeds exactly if every key is there.
pub proof fn lemma_load_needs_every_key(
    kind: [u8; 4],
    node_key: Stored,
    node_secret: Stored,
    record_key: Stored,
    owner_key: Stored,
    owner_secret: Stored,
)
    ensures
        loaded(kind, node_key, node_secret, record_key, owner_key, owner_secret) is Ok <==> (
        node_key is Key && node_secret is Key && record_key is Key && owner_key is Key
            && owner_secret is Key),
{
}

} // verus!
