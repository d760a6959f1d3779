//! States of the signaling and of the handshakes.

use vstd::prelude::*;

verus! {

/// The phase that the signaling is in.
#[derive(Debug, Copy, Clone, PartialEq, Eq, Structural)]
pub enum SignalingState {
    /// The handshake with the server.
    ServerHandshake,
    /// The handshake with the peer.
    PeerHandshake,
    /// The task has taken over.
    Task,
}

/// Why a handshake failed.
pub type FailureMsg = String;

/// The state of the handshake with the server.
#[derive(Debug, PartialEq, Eq)]
pub enum ServerHandshakeState {
    /// Nothing happened so far.
    New,
    /// The client-auth message has been sent.
    ClientInfoSent,
    /// The handshake is complete.
    Done,
    /// The handshake failed.
    Failure(FailureMsg),
}

/// The model of a [`ServerHandshakeState`].
pub enum ServerStateModel {
    New,
    ClientInfoSent,
    Done,
    Failure(Seq<char>),
}

impl ServerStateModel {
    /// The name of the state.
    pub open spec fn name(self) -> Seq<char> {
        match self {
            ServerStateModel::New => "New"@,
            ServerStateModel::ClientInfoSent => "ClientInfoSent"@,
            ServerStateModel::Done => "Done"@,
            ServerStateModel::Failure(_) => "Failure"@,
        }
    }
}

impl View for ServerHandshakeState {
    type V = ServerStateModel;

    open spec fn view(&self) -> ServerStateModel {
        match self {
            ServerHandshakeState::New => ServerStateModel::New,
            ServerHandshakeState::ClientInfoSent => ServerStateModel::ClientInfoSent,
            ServerHandshakeState::Done => ServerStateModel::Done,
            ServerHandshakeState::Failure(msg) => ServerStateModel::Failure(msg@),
        }
    }
}

impl ServerHandshakeState {
    /// The name of the state.
    pub fn text(&self) -> (text: String)
        ensures
            text@ == self@.name(),
    {
        match self {
            ServerHandshakeState::New => "New".to_string(),
            ServerHandshakeState::ClientInfoSent => "ClientInfoSent".to_string(),
            ServerHandshakeState::Done => "Done".to_string(),
            ServerHandshakeState::Failure(_) => "Failure".to_string(),
        }
    }
}

/// The state of a responder's handshake with the initiator.
#[derive(Debug, Copy, Clone, PartialEq, Eq, Structural)]
pub enum InitiatorHandshakeState {
    /// Nothing happened so far.
    New,
    /// The key message has been sent.
    KeySent,
}

} // verus!
