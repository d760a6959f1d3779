//! Cryptography-related types like public and private keys.
//!
//! The values are held as plain bytes. Drawing keys, opening boxes and sealing
//! them is left to the embedding application.

use vstd::prelude::*;

verus! {

/// Length of a key in bytes.
pub const KEY_LENGTH: usize = 32;

/// Whether two byte arrays hold the same bytes.
fn same_bytes(a: &[u8; KEY_LENGTH], b: &[u8; KEY_LENGTH]) -> (same: bool)
    ensures
        same == (*a == *b),
{
    let mut i: usize = 0;
    while i < KEY_LENGTH
        invariant
            i <= KEY_LENGTH,
            forall|j: int| 0 <= j < i ==> a[j] == b[j],
        decreases KEY_LENGTH - i,
    {
        if a[i] != b[i] {
            return false;
        }
        i = i + 1;
    }
    assert(*a =~= *b);
    true
}

/// The public part of a key pair.
#[derive(Debug, Copy, Clone, Eq)]
pub struct PublicKey {
    pub bytes: [u8; KEY_LENGTH],
}

impl PartialEq for PublicKey {
    fn eq(&self, other: &Self) -> (same: bool) {
        same_bytes(&self.bytes, &other.bytes)
    }
}

impl vstd::std_specs::cmp::PartialEqSpecImpl for PublicKey {
    open spec fn obeys_eq_spec() -> bool {
        true
    }

    open spec fn eq_spec(&self, other: &Self) -> bool {
        *self == *other
    }
}

impl PublicKey {
    /// The key that consists of the bytes of `slice`, or `None` if their number
    /// is not that of a key.
    pub fn from_slice(slice: &[u8]) -> (key: Option<PublicKey>)
        ensures
            key is Some <==> slice@.len() == KEY_LENGTH,
            key matches Some(k) ==> k.bytes@ == slice@,
    {
        if slice.len() != KEY_LENGTH {
            return None;
        }
        let mut bytes: [u8; KEY_LENGTH] = [0u8; KEY_LENGTH];
        let mut i: usize = 0;
        while i < KEY_LENGTH
            invariant
                i <= KEY_LENGTH,
                slice@.len() == KEY_LENGTH,
                forall|j: int| 0 <= j < i ==> bytes[j] == slice@[j],
            decreases KEY_LENGTH - i,
        {
            bytes[i] = slice[i];
            i = i + 1;
        }
        assert(bytes@ =~= slice@);
        Some(PublicKey { bytes })
    }
}

/// The private part of a key pair.
#[derive(Debug, Copy, Clone, Eq)]
pub struct PrivateKey {
    pub bytes: [u8; KEY_LENGTH],
}

impl PartialEq for PrivateKey {
    fn eq(&self, other: &Self) -> (same: bool) {
        same_bytes(&self.bytes, &other.bytes)
    }
}

impl vstd::std_specs::cmp::PartialEqSpecImpl for PrivateKey {
    open spec fn obeys_eq_spec() -> bool {
        true
    }

    open spec fn eq_spec(&self, other: &Self) -> bool {
        *self == *other
    }
}

/// A key pair for public-key authenticated encryption.
#[derive(Debug, Copy, Clone, Eq)]
pub struct KeyStore {
    pub public_key: PublicKey,
    pub private_key: PrivateKey,
}

/// Another name for [`KeyStore`].
pub type KeyPair = KeyStore;

impl PartialEq for KeyStore {
    fn eq(&self, other: &Self) -> (same: bool) {
        self.public_key == other.public_key && self.private_key == other.private_key
    }
}

impl vstd::std_specs::cmp::PartialEqSpecImpl for KeyStore {
    open spec fn obeys_eq_spec() -> bool {
        true
    }

    open spec fn eq_spec(&self, other: &Self) -> bool {
        *self == *other
    }
}

impl KeyStore {
    /// The pair that consists of the two keys.
    pub fn new(public_key: PublicKey, private_key: PrivateKey) -> (pair: KeyStore)
        ensures
            pair == (KeyStore { public_key, private_key }),
    {
        KeyStore { public_key, private_key }
    }

    /// The public key.
    pub fn public_key(&self) -> (key: &PublicKey)
        ensures
            *key == self.public_key,
    {
        &self.public_key
    }

    /// The private key.
    pub fn private_key(&self) -> (key: &PrivateKey)
        ensures
            *key == self.private_key,
    {
        &self.private_key
    }
}

/// A secret that an initiator hands to a responder out of band. It encrypts the
/// first message from that responder.
#[derive(Debug, Copy, Clone, Eq)]
pub struct AuthToken {
    pub bytes: [u8; KEY_LENGTH],
}

impl PartialEq for AuthToken {
    fn eq(&self, other: &Self) -> (same: bool) {
        same_bytes(&self.bytes, &other.bytes)
    }
}

impl vstd::std_specs::cmp::PartialEqSpecImpl for AuthToken {
    open spec fn obeys_eq_spec() -> bool {
        true
    }

    open spec fn eq_spec(&self, other: &Self) -> bool {
        *self == *other
    }
}

} // verus!
