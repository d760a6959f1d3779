//! The context structs hold state used in signaling.

use vstd::prelude::*;

use super::cookie::{CookiePair, Seed};
use super::csn::CombinedSequencePair;
use super::state::{InitiatorHandshakeState, ServerHandshakeState, ServerStateModel};
use super::types::{Address, Identity};
use crate::crypto::PublicKey;

verus! {

/// The model of what is common to all peer contexts.
pub struct PeerModel {
    pub identity: Identity,
    pub permanent_key: Option<PublicKey>,
    pub session_key: Option<PublicKey>,
    pub csn_pair: CombinedSequencePair,
    pub cookie_pair: CookiePair,
}

/// What is known of a peer.
pub trait PeerContext {
    /// The model of the peer.
    spec fn peer(&self) -> PeerModel;

    /// The context with another pair of sequence numbers.
    spec fn with_csn_pair(&self, csn_pair: CombinedSequencePair) -> Self where Self: Sized;

    /// The context with another pair of cookies.
    spec fn with_cookie_pair(&self, cookie_pair: CookiePair) -> Self where Self: Sized;

    /// The peer's identity.
    fn identity(&self) -> (identity: Identity)
        ensures
            identity == self.peer().identity,
    ;

    /// The peer's permanent key, if it is known.
    fn permanent_key(&self) -> (key: Option<&PublicKey>)
        ensures
            match key {
                Some(k) => self.peer().permanent_key == Some(*k),
                None => self.peer().permanent_key is None,
            },
    ;

    /// The peer's session key, if it is known.
    fn session_key(&self) -> (key: Option<&PublicKey>)
        ensures
            match key {
                Some(k) => self.peer().session_key == Some(*k),
                None => self.peer().session_key is None,
            },
    ;

    /// The sequence numbers.
    fn csn_pair(&self) -> (pair: &CombinedSequencePair)
        ensures
            *pair == self.peer().csn_pair,
    ;

    /// The sequence numbers, to be changed.
    fn csn_pair_mut(&mut self) -> (pair: &mut CombinedSequencePair) where Self: Sized
        ensures
            *pair == old(self).peer().csn_pair,
            *final(self) == old(self).with_csn_pair(*final(pair)),
            final(self).peer() == (PeerModel { csn_pair: *final(pair), ..old(self).peer() }),
    ;

    /// The cookies.
    fn cookie_pair(&self) -> (pair: &CookiePair)
        ensures
            *pair == self.peer().cookie_pair,
    ;

    /// The cookies, to be changed.
    fn cookie_pair_mut(&mut self) -> (pair: &mut CookiePair) where Self: Sized
        ensures
            *pair == old(self).peer().cookie_pair,
            *final(self) == old(self).with_cookie_pair(*final(pair)),
            final(self).peer() == (PeerModel { cookie_pair: *final(pair), ..old(self).peer() }),
    ;
}

/// The model of a [`ServerContext`].
pub struct ServerModel {
    pub handshake_state: ServerStateModel,
    pub permanent_key: Option<PublicKey>,
    pub session_key: Option<PublicKey>,
    pub csn_pair: CombinedSequencePair,
    pub cookie_pair: CookiePair,
}

impl ServerModel {
    /// The server before its first message.
    pub open spec fn fresh(seed: Seed) -> ServerModel {
        ServerModel {
            handshake_state: ServerStateModel::New,
            permanent_key: None,
            session_key: None,
            csn_pair: CombinedSequencePair::starting_at(seed.sequence),
            cookie_pair: CookiePair::starting_with(seed.cookie),
        }
    }
}

/// What is known of the server.
#[derive(Debug, PartialEq, Eq)]
pub struct ServerContext {
    pub handshake_state: ServerHandshakeState,
    pub permanent_key: Option<PublicKey>,
    pub session_key: Option<PublicKey>,
    pub csn_pair: CombinedSequencePair,
    pub cookie_pair: CookiePair,
}

impl View for ServerContext {
    type V = ServerModel;

    open spec fn view(&self) -> ServerModel {
        ServerModel {
            handshake_state: self.handshake_state@,
            permanent_key: self.permanent_key,
            session_key: self.session_key,
            csn_pair: self.csn_pair,
            cookie_pair: self.cookie_pair,
        }
    }
}

impl ServerContext {
    /// The server before its first message.
    pub fn new(seed: Seed) -> (context: Self)
        ensures
            context@ == ServerModel::fresh(seed),
    {
        ServerContext {
            handshake_state: ServerHandshakeState::New,
            permanent_key: None,
            session_key: None,
            csn_pair: CombinedSequencePair::new(seed.sequence),
            cookie_pair: CookiePair::new(seed.cookie),
        }
    }

    /// The state of the handshake.
    pub fn handshake_state(&self) -> (state: &ServerHandshakeState)
        ensures
            *state == self.handshake_state,
    {
        &self.handshake_state
    }

    /// Set the state of the handshake.
    pub fn set_handshake_state(&mut self, state: ServerHandshakeState)
        ensures
            *final(self) == (ServerContext { handshake_state: state, ..*old(self) }),
    {
        self.handshake_state = state;
    }

    /// Let the handshake fail.
    pub fn handshake_failed(&mut self, msg: String)
        ensures
            final(self)@ == (ServerModel {
                handshake_state: ServerStateModel::Failure(msg@),
                ..old(self)@
            }),
    {
        self.handshake_state = ServerHandshakeState::Failure(msg);
    }
}

impl PeerContext for ServerContext {
    open spec fn peer(&self) -> PeerModel {
        PeerModel {
            identity: Identity::Server,
            permanent_key: self.permanent_key,
            session_key: self.session_key,
            csn_pair: self.csn_pair,
            cookie_pair: self.cookie_pair,
        }
    }

    open spec fn with_csn_pair(&self, csn_pair: CombinedSequencePair) -> Self {
        ServerContext { csn_pair, ..*self }
    }

    open spec fn with_cookie_pair(&self, cookie_pair: CookiePair) -> Self {
        ServerContext { cookie_pair, ..*self }
    }

    fn identity(&self) -> Identity {
        Identity::Server
    }

    fn permanent_key(&self) -> Option<&PublicKey> {
        self.permanent_key.as_ref()
    }

    fn session_key(&self) -> Option<&PublicKey> {
        self.session_key.as_ref()
    }

    fn csn_pair(&self) -> &CombinedSequencePair {
        &self.csn_pair
    }

    fn csn_pair_mut(&mut self) -> &mut CombinedSequencePair {
        &mut self.csn_pair
    }

    fn cookie_pair(&self) -> &CookiePair {
        &self.cookie_pair
    }

    fn cookie_pair_mut(&mut self) -> &mut CookiePair {
        &mut self.cookie_pair
    }
}

/// What an initiator knows of a responder.
#[derive(Debug, Copy, Clone, PartialEq, Eq)]
pub struct ResponderContext {
    pub address: Address,
    pub permanent_key: Option<PublicKey>,
    pub session_key: Option<PublicKey>,
    pub csn_pair: CombinedSequencePair,
    pub cookie_pair: CookiePair,
}

impl ResponderContext {
    /// The responder with this address before its first message.
    pub open spec fn fresh(address: Address, seed: Seed) -> ResponderContext {
        ResponderContext {
            address,
            permanent_key: None,
            session_key: None,
            csn_pair: CombinedSequencePair::starting_at(seed.sequence),
            cookie_pair: CookiePair::starting_with(seed.cookie),
        }
    }

    /// The responder with this address before its first message.
    pub fn new(address: Address, seed: Seed) -> (context: Self)
        ensures
            context == Self::fresh(address, seed),
    {
        ResponderContext {
            address,
            permanent_key: None,
            session_key: None,
            csn_pair: CombinedSequencePair::new(seed.sequence),
            cookie_pair: CookiePair::new(seed.cookie),
        }
    }
}

impl PeerContext for ResponderContext {
    open spec fn peer(&self) -> PeerModel {
        PeerModel {
            identity: Identity::Responder(self.address.0),
            permanent_key: self.permanent_key,
            session_key: self.session_key,
            csn_pair: self.csn_pair,
            cookie_pair: self.cookie_pair,
        }
    }

    open spec fn with_csn_pair(&self, csn_pair: CombinedSequencePair) -> Self {
        ResponderContext { csn_pair, ..*self }
    }

    open spec fn with_cookie_pair(&self, cookie_pair: CookiePair) -> Self {
        ResponderContext { cookie_pair, ..*self }
    }

    fn identity(&self) -> Identity {
        Identity::Responder(self.address.0)
    }

    fn permanent_key(&self) -> Option<&PublicKey> {
        self.permanent_key.as_ref()
    }

    fn session_key(&self) -> Option<&PublicKey> {
        self.session_key.as_ref()
    }

    fn csn_pair(&self) -> &CombinedSequencePair {
        &self.csn_pair
    }

    fn csn_pair_mut(&mut self) -> &mut CombinedSequencePair {
        &mut self.csn_pair
    }

    fn cookie_pair(&self) -> &CookiePair {
        &self.cookie_pair
    }

    fn cookie_pair_mut(&mut self) -> &mut CookiePair {
        &mut self.cookie_pair
    }
}

/// What a responder knows of the initiator.
#[derive(Debug, Copy, Clone, PartialEq, Eq)]
pub struct InitiatorContext {
    pub handshake_state: InitiatorHandshakeState,
    pub permanent_key: PublicKey,
    pub session_key: Option<PublicKey>,
    pub csn_pair: CombinedSequencePair,
    pub cookie_pair: CookiePair,
}

impl InitiatorContext {
    /// The initiator with this permanent key before its first message.
    pub open spec fn fresh(permanent_key: PublicKey, seed: Seed) -> InitiatorContext {
        InitiatorContext {
            handshake_state: InitiatorHandshakeState::New,
            permanent_key,
            session_key: None,
            csn_pair: CombinedSequencePair::starting_at(seed.sequence),
            cookie_pair: CookiePair::starting_with(seed.cookie),
        }
    }

    /// The initiator with this permanent key before its first message.
    pub fn new(permanent_key: PublicKey, seed: Seed) -> (context: Self)
        ensures
            context == Self::fresh(permanent_key, seed),
    {
        InitiatorContext {
            handshake_state: InitiatorHandshakeState::New,
            permanent_key,
            session_key: None,
            csn_pair: CombinedSequencePair::new(seed.sequence),
            cookie_pair: CookiePair::new(seed.cookie),
        }
    }

    /// The state of the handshake.
    pub fn handshake_state(&self) -> (state: &InitiatorHandshakeState)
        ensures
            *state == self.handshake_state,
    {
        &self.handshake_state
    }

    /// Set the state of the handshake.
    pub fn set_handshake_state(&mut self, state: InitiatorHandshakeState)
        ensures
            *final(self) == (InitiatorContext { handshake_state: state, ..*old(self) }),
    {
        self.handshake_state = state;
    }
}

impl PeerContext for InitiatorContext {
    open spec fn peer(&self) -> PeerModel {
        PeerModel {
            identity: Identity::Initiator,
            permanent_key: Some(self.permanent_key),
            session_key: self.session_key,
            csn_pair: self.csn_pair,
            cookie_pair: self.cookie_pair,
        }
    }

    open spec fn with_csn_pair(&self, csn_pair: CombinedSequencePair) -> Self {
        InitiatorContext { csn_pair, ..*self }
    }

    open spec fn with_cookie_pair(&self, cookie_pair: CookiePair) -> Self {
        InitiatorContext { cookie_pair, ..*self }
    }

    fn identity(&self) -> Identity {
        Identity::Initiator
    }

    fn permanent_key(&self) -> Option<&PublicKey> {
        Some(&self.permanent_key)
    }

    fn session_key(&self) -> Option<&PublicKey> {
        self.session_key.as_ref()
    }

    fn csn_pair(&self) -> &CombinedSequencePair {
        &self.csn_pair
    }

    fn csn_pair_mut(&mut self) -> &mut CombinedSequencePair {
        &mut self.csn_pair
    }

    fn cookie_pair(&self) -> &CookiePair {
        &self.cookie_pair
    }

    fn cookie_pair_mut(&mut self) -> &mut CookiePair {
        &mut self.cookie_pair
    }
}

} // verus!
