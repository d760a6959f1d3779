//! Messages with their nonce: as bytes from the wire, opened, and ready to be sealed.

use vstd::prelude::*;
use vstd::slice::*;

use crate::crypto::{AuthToken, KeyStore, PublicKey};
use crate::errors::{SignalingError, SignalingFault};
use crate::protocol::messages::{Message, MessageModel};
use crate::protocol::nonce::{encoded_nonce_has_24_bytes, nonce_encoding_is_injective};
use crate::protocol::nonce::{Nonce, NONCE_LENGTH};

verus! {

/// Declares `rmpv::Value`, the MessagePack value that a task sends or receives. The library
/// only passes such values on.
#[verifier::external_type_specification]
#[verifier::external_body]
pub struct ExValue(rmpv::Value);

/// A message as it stands on the wire: the nonce, and the bytes after it, which may be
/// encrypted.
#[derive(Debug, PartialEq, Eq)]
pub struct ByteBox {
    pub bytes: Vec<u8>,
    pub nonce: Nonce,
}

impl ByteBox {
    /// The box on the wire.
    pub open spec fn encoded(self) -> Seq<u8> {
        self.nonce.encoded() + self.bytes@
    }

    /// The box with the two parts.
    pub fn new(bytes: Vec<u8>, nonce: Nonce) -> (bbox: Self)
        ensures
            bbox == (ByteBox { bytes, nonce }),
    {
        ByteBox { bytes, nonce }
    }

    /// The box that stands in `bytes`. Fewer bytes than a nonce takes hold no box.
    pub fn from_slice(bytes: &[u8]) -> (result: Result<ByteBox, SignalingError>)
        ensures
            match result {
                Ok(bbox) => bytes@.len() >= NONCE_LENGTH && bbox.encoded() == bytes@,
                Err(e) => bytes@.len() < NONCE_LENGTH && e@ == SignalingFault::Decode(
                    "message is too short"@,
                ),
            },
    {
        if bytes.len() < NONCE_LENGTH {
            return Err(SignalingError::Decode("message is too short".to_string()));
        }
        let nonce = Nonce::read(bytes);
        let mut rest: Vec<u8> = Vec::new();
        rest.extend_from_slice(slice_subrange(bytes, NONCE_LENGTH, bytes.len()));
        let bbox = ByteBox { bytes: rest, nonce };
        assert(bbox.encoded() =~= bytes@);
        Ok(bbox)
    }

    /// The box on the wire.
    pub fn into_bytes(self) -> (bytes: Vec<u8>)
        ensures
            bytes@ == self.encoded(),
    {
        let mut bytes: Vec<u8> = Vec::new();
        self.nonce.write(&mut bytes);
        bytes.extend_from_slice(self.bytes.as_slice());
        assert(bytes@ =~= self.encoded());
        bytes
    }
}

/// What a box carries.
#[derive(Debug, PartialEq)]
pub enum Payload {
    /// A signaling message.
    Message(Message),
    /// A message of the task.
    Task(rmpv::Value),
}

/// The model of a [`Payload`].
#[verifier::ext_equal]
pub enum PayloadModel {
    Message(MessageModel),
    Task(rmpv::Value),
}

impl View for Payload {
    type V = PayloadModel;

    open spec fn view(&self) -> PayloadModel {
        match self {
            Payload::Message(msg) => PayloadModel::Message(msg@),
            Payload::Task(value) => PayloadModel::Task(*value),
        }
    }
}

/// How the payload of an outgoing box has to be protected.
#[derive(Debug, Copy, Clone, PartialEq, Eq)]
pub enum Sealing {
    /// Not at all.
    Plain,
    /// By public-key authenticated encryption.
    Keys { our_key: KeyStore, their_key: PublicKey },
    /// By secret-key authenticated encryption.
    Token(AuthToken),
}

/// An outgoing box: what it carries, its nonce, and how the payload is to be protected.
#[derive(Debug, PartialEq)]
pub struct OutBox {
    pub payload: Payload,
    pub nonce: Nonce,
    pub sealing: Sealing,
}

/// The model of an [`OutBox`].
#[verifier::ext_equal]
pub struct OutBoxModel {
    pub payload: PayloadModel,
    pub nonce: Nonce,
    pub sealing: Sealing,
}

impl View for OutBox {
    type V = OutBoxModel;

    open spec fn view(&self) -> OutBoxModel {
        OutBoxModel { payload: self.payload@, nonce: self.nonce, sealing: self.sealing }
    }
}

/// A payload with its nonce.
#[derive(Debug, PartialEq)]
pub struct OpenBox {
    pub payload: Payload,
    pub nonce: Nonce,
}

impl OpenBox {
    /// The box with a signaling message.
    pub fn new(message: Message, nonce: Nonce) -> (obox: Self)
        ensures
            obox.payload@ == PayloadModel::Message(message@),
            obox.nonce == nonce,
    {
        OpenBox { payload: Payload::Message(message), nonce }
    }

    /// Have the payload sent without encryption.
    pub fn encode(self) -> (out: OutBox)
        ensures
            out@ == (OutBoxModel {
                payload: self.payload@,
                nonce: self.nonce,
                sealing: Sealing::Plain,
            }),
    {
        OutBox { payload: self.payload, nonce: self.nonce, sealing: Sealing::Plain }
    }

    /// Have the payload encrypted with our key pair for the owner of `their_key`.
    pub fn encrypt(self, our_key: &KeyStore, their_key: &PublicKey) -> (out: OutBox)
        ensures
            out@ == (OutBoxModel {
                payload: self.payload@,
                nonce: self.nonce,
                sealing: Sealing::Keys { our_key: *our_key, their_key: *their_key },
            }),
    {
        OutBox {
            payload: self.payload,
            nonce: self.nonce,
            sealing: Sealing::Keys { our_key: *our_key, their_key: *their_key },
        }
    }

    /// Have the payload encrypted with the auth token.
    pub fn encrypt_token(self, token: &AuthToken) -> (out: OutBox)
        ensures
            out@ == (OutBoxModel {
                payload: self.payload@,
                nonce: self.nonce,
                sealing: Sealing::Token(*token),
            }),
    {
        OutBox { payload: self.payload, nonce: self.nonce, sealing: Sealing::Token(*token) }
    }
}

/// Boxes that look the same on the wire hold the same: reading a written box gives back
/// its nonce and its bytes.
pub proof fn byte_box_encoding_is_injective(a: ByteBox, b: ByteBox)
    requires
        a.encoded() == b.encoded(),
    ensures
        a.nonce == b.nonce,
        a.bytes@ == b.bytes@,
{
    encoded_nonce_has_24_bytes(a.nonce);
    encoded_nonce_has_24_bytes(b.nonce);
    let n = NONCE_LENGTH as int;
    assert(a.nonce.encoded() =~= a.encoded().subrange(0, n));
    assert(b.nonce.encoded() =~= b.encoded().subrange(0, n));
    nonce_encoding_is_injective(a.nonce, b.nonce);
    assert(a.bytes@ =~= a.encoded().subrange(n, a.encoded().len() as int));
    assert(b.bytes@ =~= b.encoded().subrange(n, b.encoded().len() as int));
}

} // verus!
