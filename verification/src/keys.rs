//! Identifiers and key pairs, held as plain bytes.

use vstd::prelude::*;

verus! {

/// Names one record of the distributed record store: the four bytes that name
/// the cryptosystem, and the 32 bytes of the record's public key.
#[derive(Clone, Copy, Debug, PartialEq, Eq, Hash)]
pub struct RecordId {
    pub kind: [u8; 4],
    pub value: [u8; 32],
}

/// A public key with its secret: the owner of a record, who may write it, or
/// the identity of a node.
#[derive(Clone, Copy, Debug, PartialEq, Eq, Hash)]
pub struct KeyPair {
    pub key: [u8; 32],
    pub secret: [u8; 32],
}

} // verus!
