//! Roles, addresses and identities.

use vstd::prelude::*;
use vstd::string::*;

use crate::boxes::{OutBox, OutBoxModel};
use crate::text::{decimal_text, hex_byte_text};
use crate::CloseCode;

verus! {

/// The role of a client.
#[derive(Debug, Copy, Clone, PartialEq, Eq, Structural)]
pub enum Role {
    /// An initiator.
    Initiator,
    /// A responder.
    Responder,
}

impl Role {
    /// The name of the role.
    pub open spec fn name(self) -> Seq<char> {
        match self {
            Role::Initiator => "Initiator"@,
            Role::Responder => "Responder"@,
        }
    }

    /// Whether a client with this role may be assigned the address: an initiator only
    /// 0x01, a responder only one from 0x02 to 0xff.
    pub open spec fn may_hold(self, address: Address) -> bool {
        match self {
            Role::Initiator => address.0 == 0x01,
            Role::Responder => address.0 >= 0x02,
        }
    }

    /// The name of the role.
    pub fn text(&self) -> (text: String)
        ensures
            text@ == self.name(),
    {
        match self {
            Role::Initiator => "Initiator".to_string(),
            Role::Responder => "Responder".to_string(),
        }
    }
}

/// An address on the signaling path. The server has address 0x00, the initiator 0x01,
/// and responders have those from 0x02 on.
#[derive(Debug, Copy, Clone, PartialEq, Eq, Structural, Hash)]
pub struct Address(pub u8);

impl Address {
    /// How the address is written in messages.
    pub open spec fn name(self) -> Seq<char> {
        "Address(0x"@ + crate::text::hex_byte(self.0) + ")"@
    }

    /// Whether this is 0x00, the address of a client that has none assigned yet.
    pub fn is_unknown(&self) -> (r: bool)
        ensures
            r == (self.0 == 0x00),
    {
        self.0 == 0x00
    }

    /// Whether this is the address of an initiator.
    pub fn is_initiator(&self) -> (r: bool)
        ensures
            r == (self.0 == 0x01),
    {
        self.0 == 0x01
    }

    /// Whether this is an address for responders.
    pub fn is_responder(&self) -> (r: bool)
        ensures
            r == (self.0 >= 0x02),
    {
        self.0 >= 0x02
    }

    /// How the address is written in messages.
    pub fn text(&self) -> (text: String)
        ensures
            text@ == self.name(),
    {
        "Address(0x".to_string().concat(hex_byte_text(self.0).as_str()).concat(")")
    }
}

/// The identity that a client has been assigned.
#[derive(Debug, Copy, Clone, PartialEq, Eq, Structural)]
pub enum ClientIdentity {
    /// None was assigned so far.
    Unknown,
    /// The client is the initiator.
    Initiator,
    /// The client is the responder with this address.
    Responder(u8),
}

impl ClientIdentity {
    /// The address of a client with this identity.
    pub open spec fn holds(self) -> Address {
        match self {
            ClientIdentity::Unknown => Address(0x00),
            ClientIdentity::Initiator => Address(0x01),
            ClientIdentity::Responder(address) => Address(address),
        }
    }

    /// How the identity is written in messages.
    pub open spec fn name(self) -> Seq<char> {
        match self {
            ClientIdentity::Unknown => "Unknown"@,
            ClientIdentity::Initiator => "Initiator"@,
            ClientIdentity::Responder(address) => "Responder("@ + crate::text::decimal(
                address as nat,
            ) + ")"@,
        }
    }

    /// The address of a client with this identity.
    pub fn address(&self) -> (address: Address)
        ensures
            address == self.holds(),
    {
        match self {
            ClientIdentity::Unknown => Address(0x00),
            ClientIdentity::Initiator => Address(0x01),
            ClientIdentity::Responder(address) => Address(*address),
        }
    }

    /// How the identity is written in messages.
    pub fn text(&self) -> (text: String)
        ensures
            text@ == self.name(),
    {
        match self {
            ClientIdentity::Unknown => "Unknown".to_string(),
            ClientIdentity::Initiator => "Initiator".to_string(),
            ClientIdentity::Responder(address) => "Responder(".to_string().concat(
                decimal_text(*address as u16).as_str(),
            ).concat(")"),
        }
    }
}

/// The identity of a peer.
#[derive(Debug, Copy, Clone, PartialEq, Eq, Structural)]
pub enum Identity {
    /// The server.
    Server,
    /// The initiator.
    Initiator,
    /// The responder with this address.
    Responder(u8),
}

impl Identity {
    /// The address of a peer with this identity.
    pub open spec fn holds(self) -> Address {
        match self {
            Identity::Server => Address(0x00),
            Identity::Initiator => Address(0x01),
            Identity::Responder(address) => Address(address),
        }
    }

    /// How the identity is written in messages.
    pub open spec fn name(self) -> Seq<char> {
        match self {
            Identity::Server => "server"@,
            Identity::Initiator => "initiator"@,
            Identity::Responder(address) => "responder "@ + crate::text::decimal(address as nat),
        }
    }

    /// The address of a peer with this identity.
    pub fn address(&self) -> (address: Address)
        ensures
            address == self.holds(),
    {
        match self {
            Identity::Server => Address(0x00),
            Identity::Initiator => Address(0x01),
            Identity::Responder(address) => Address(*address),
        }
    }

    /// How the identity is written in messages.
    pub fn text(&self) -> (text: String)
        ensures
            text@ == self.name(),
    {
        match self {
            Identity::Server => "server".to_string(),
            Identity::Initiator => "initiator".to_string(),
            Identity::Responder(address) => "responder ".to_string().concat(
                decimal_text(*address as u16).as_str(),
            ),
        }
    }
}

/// What has to be done because of a message.
#[derive(Debug, PartialEq)]
pub enum HandleAction {
    /// Send this box back.
    Reply(OutBox),
    /// The handshake is over.
    HandshakeDone,
    /// Hand this value to the task.
    TaskMessage(rmpv::Value),
    /// Tell the task that the connection is closed.
    TaskClose(CloseCode),
}

/// The model of a [`HandleAction`].
#[verifier::ext_equal]
pub enum ActionModel {
    Reply(OutBoxModel),
    HandshakeDone,
    TaskMessage(rmpv::Value),
    TaskClose(CloseCode),
}

impl View for HandleAction {
    type V = ActionModel;

    open spec fn view(&self) -> ActionModel {
        match self {
            HandleAction::Reply(out) => ActionModel::Reply(out@),
            HandleAction::HandshakeDone => ActionModel::HandshakeDone,
            HandleAction::TaskMessage(value) => ActionModel::TaskMessage(*value),
            HandleAction::TaskClose(reason) => ActionModel::TaskClose(*reason),
        }
    }
}

/// The models of a list of actions.
pub open spec fn action_models(actions: Seq<HandleAction>) -> Seq<ActionModel> {
    actions.map_values(|action: HandleAction| action@)
}

} // verus!
