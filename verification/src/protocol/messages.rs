//! The signaling messages.

use vstd::prelude::*;

use super::cookie::Cookie;
use super::types::Address;
use crate::crypto::PublicKey;

verus! {

/// The server's first message. It holds the key that the server uses on this path.
#[derive(Debug, PartialEq, Eq)]
pub struct ServerHello {
    pub key: PublicKey,
}

/// A responder's first message to the server. It holds the responder's permanent key.
#[derive(Debug, PartialEq, Eq)]
pub struct ClientHello {
    pub key: PublicKey,
}

/// A client's authentication towards the server.
#[derive(Debug, PartialEq, Eq)]
pub struct ClientAuth {
    /// The cookie that the server used.
    pub your_cookie: Cookie,
    /// The subprotocols that the client offers.
    pub subprotocols: Vec<String>,
    /// The requested ping interval in seconds, or 0 for none.
    pub ping_interval: u64,
    /// The server's permanent key that the client expects.
    pub your_key: Option<PublicKey>,
}

/// The server's authentication towards a client.
#[derive(Debug, PartialEq, Eq)]
pub struct ServerAuth {
    /// The cookie that the client used.
    pub your_cookie: Cookie,
    /// The server's session key and the client's permanent key, signed.
    pub signed_keys: Option<Vec<u8>>,
    /// For an initiator: the responders on the path.
    pub responders: Option<Vec<Address>>,
    /// For a responder: whether an initiator is on the path.
    pub initiator_connected: Option<bool>,
}

/// A responder's permanent key, for the initiator.
#[derive(Debug, PartialEq, Eq)]
pub struct Token {
    pub key: PublicKey,
}

/// A client's session key, for the other client.
#[derive(Debug, PartialEq, Eq)]
pub struct Key {
    pub key: PublicKey,
}

/// The end of the signaling, with the number of a close code.
#[derive(Debug, PartialEq, Eq)]
pub struct Close {
    pub reason: u16,
}

/// A signaling message.
#[derive(Debug, PartialEq, Eq)]
pub enum Message {
    ServerHello(ServerHello),
    ClientHello(ClientHello),
    ClientAuth(ClientAuth),
    ServerAuth(ServerAuth),
    Token(Token),
    Key(Key),
    Close(Close),
}

/// The model of a [`ClientAuth`] message.
#[verifier::ext_equal]
pub struct ClientAuthModel {
    pub your_cookie: Cookie,
    pub subprotocols: Seq<Seq<char>>,
    pub ping_interval: u64,
    pub your_key: Option<PublicKey>,
}

/// The model of a [`ServerAuth`] message.
#[verifier::ext_equal]
pub struct ServerAuthModel {
    pub your_cookie: Cookie,
    pub signed_keys: Option<Seq<u8>>,
    pub responders: Option<Seq<Address>>,
    pub initiator_connected: Option<bool>,
}

/// The model of a [`Message`].
#[verifier::ext_equal]
pub enum MessageModel {
    ServerHello(PublicKey),
    ClientHello(PublicKey),
    ClientAuth(ClientAuthModel),
    ServerAuth(ServerAuthModel),
    Token(PublicKey),
    Key(PublicKey),
    Close(u16),
}

impl MessageModel {
    /// The type of the message, as it stands in the message's `type` field.
    pub open spec fn tag(self) -> Seq<char> {
        match self {
            MessageModel::ServerHello(_) => "server-hello"@,
            MessageModel::ClientHello(_) => "client-hello"@,
            MessageModel::ClientAuth(_) => "client-auth"@,
            MessageModel::ServerAuth(_) => "server-auth"@,
            MessageModel::Token(_) => "token"@,
            MessageModel::Key(_) => "key"@,
            MessageModel::Close(_) => "close"@,
        }
    }
}

impl View for ClientAuth {
    type V = ClientAuthModel;

    open spec fn view(&self) -> ClientAuthModel {
        ClientAuthModel {
            your_cookie: self.your_cookie,
            subprotocols: self.subprotocols@.map_values(|s: String| s@),
            ping_interval: self.ping_interval,
            your_key: self.your_key,
        }
    }
}

impl View for ServerAuth {
    type V = ServerAuthModel;

    open spec fn view(&self) -> ServerAuthModel {
        ServerAuthModel {
            your_cookie: self.your_cookie,
            signed_keys: match self.signed_keys {
                Some(keys) => Some(keys@),
                None => None,
            },
            responders: match self.responders {
                Some(responders) => Some(responders@),
                None => None,
            },
            initiator_connected: self.initiator_connected,
        }
    }
}

impl View for Message {
    type V = MessageModel;

    open spec fn view(&self) -> MessageModel {
        match self {
            Message::ServerHello(msg) => MessageModel::ServerHello(msg.key),
            Message::ClientHello(msg) => MessageModel::ClientHello(msg.key),
            Message::ClientAuth(msg) => MessageModel::ClientAuth(msg@),
            Message::ServerAuth(msg) => MessageModel::ServerAuth(msg@),
            Message::Token(msg) => MessageModel::Token(msg.key),
            Message::Key(msg) => MessageModel::Key(msg.key),
            Message::Close(msg) => MessageModel::Close(msg.reason),
        }
    }
}

impl Message {
    /// The type of the message.
    pub fn get_type(&self) -> (name: &'static str)
        ensures
            name@ == self@.tag(),
    {
        match self {
            Message::ServerHello(_) => "server-hello",
            Message::ClientHello(_) => "client-hello",
            Message::ClientAuth(_) => "client-auth",
            Message::ServerAuth(_) => "server-auth",
            Message::Token(_) => "token",
            Message::Key(_) => "key",
            Message::Close(_) => "close",
        }
    }
}

impl ServerHello {
    /// The message that announces `key`.
    pub fn new(key: PublicKey) -> (msg: Self)
        ensures
            msg.key == key,
    {
        ServerHello { key }
    }

    /// Wrap the message.
    pub fn into_message(self) -> (msg: Message)
        ensures
            msg@ == MessageModel::ServerHello(self.key),
    {
        Message::ServerHello(self)
    }
}

impl ClientHello {
    /// The message that announces `key`.
    pub fn new(key: PublicKey) -> (msg: Self)
        ensures
            msg.key == key,
    {
        ClientHello { key }
    }

    /// Wrap the message.
    pub fn into_message(self) -> (msg: Message)
        ensures
            msg@ == MessageModel::ClientHello(self.key),
    {
        Message::ClientHello(self)
    }
}

impl ClientAuth {
    /// Wrap the message.
    pub fn into_message(self) -> (msg: Message)
        ensures
            msg@ == MessageModel::ClientAuth(self@),
    {
        Message::ClientAuth(self)
    }
}

impl ServerAuth {
    /// The message to an initiator: it lists the responders on the path.
    pub fn for_initiator(
        your_cookie: Cookie,
        signed_keys: Option<Vec<u8>>,
        responders: Vec<Address>,
    ) -> (msg: Self)
        ensures
            msg == (ServerAuth {
                your_cookie,
                signed_keys,
                responders: Some(responders),
                initiator_connected: None,
            }),
    {
        ServerAuth {
            your_cookie,
            signed_keys,
            responders: Some(responders),
            initiator_connected: None,
        }
    }

    /// The message to a responder: it tells whether an initiator is on the path.
    pub fn for_responder(
        your_cookie: Cookie,
        signed_keys: Option<Vec<u8>>,
        initiator_connected: bool,
    ) -> (msg: Self)
        ensures
            msg == (ServerAuth {
                your_cookie,
                signed_keys,
                responders: None,
                initiator_connected: Some(initiator_connected),
            }),
    {
        ServerAuth {
            your_cookie,
            signed_keys,
            responders: None,
            initiator_connected: Some(initiator_connected),
        }
    }

    /// Wrap the message.
    pub fn into_message(self) -> (msg: Message)
        ensures
            msg@ == MessageModel::ServerAuth(self@),
    {
        Message::ServerAuth(self)
    }
}

impl Token {
    /// The message that announces `key`.
    pub fn new(key: PublicKey) -> (msg: Self)
        ensures
            msg.key == key,
    {
        Token { key }
    }

    /// Wrap the message.
    pub fn into_message(self) -> (msg: Message)
        ensures
            msg@ == MessageModel::Token(self.key),
    {
        Message::Token(self)
    }
}

impl Key {
    /// The message that announces `key`.
    pub fn new(key: PublicKey) -> (msg: Self)
        ensures
            msg.key == key,
    {
        Key { key }
    }

    /// Wrap the message.
    pub fn into_message(self) -> (msg: Message)
        ensures
            msg@ == MessageModel::Key(self.key),
    {
        Message::Key(self)
    }
}

impl Close {
    /// The message with the number of a close code.
    pub fn new(reason: u16) -> (msg: Self)
        ensures
            msg.reason == reason,
    {
        Close { reason }
    }

    /// Wrap the message.
    pub fn into_message(self) -> (msg: Message)
        ensures
            msg@ == MessageModel::Close(self.reason),
    {
        Message::Close(self)
    }
}

} // verus!
