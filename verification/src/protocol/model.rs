//! The model of the signaling: its state, and what each message does to it.

use vstd::prelude::*;

use super::context::{
    InitiatorContext, PeerContext, PeerModel, ResponderContext, ServerModel,
};
use super::cookie::{Cookie, CookiePair, Seed};
use super::csn::{CombinedSequencePair, CombinedSequenceSnapshot, CsnOverflow};
use super::messages::{ClientAuthModel, MessageModel, ServerAuthModel};
use super::nonce::Nonce;
use super::state::{InitiatorHandshakeState, ServerStateModel, SignalingState};
use super::types::{ActionModel, Address, ClientIdentity, Identity, Role};
use crate::boxes::{OutBoxModel, PayloadModel, Sealing};
use crate::crypto::{AuthToken, KeyStore, PublicKey};
use crate::errors::SignalingFault;

verus! {

/// The name of the websocket subprotocol.
pub open spec fn subprotocol() -> Seq<char> {
    "v1.saltyrtc.org"@
}

/// What becomes of a message because of its nonce.
pub enum Verdict {
    /// The message is looked at.
    Accept,
    /// The message is discarded.
    Drop(Seq<char>),
    /// The handshake fails.
    Fail(Seq<char>),
}

/// The other clients on the path, as one of the two roles sees them.
#[verifier::ext_equal]
pub enum PathModel {
    /// An initiator knows responders by their address, and may have picked one of them.
    Initiator { responders: Map<u8, ResponderContext>, responder: Option<Address> },
    /// A responder knows the initiator.
    Responder { initiator: InitiatorContext },
}

/// The state of the signaling.
#[verifier::ext_equal]
pub struct SignalingModel {
    pub signaling_state: SignalingState,
    pub permanent_key: KeyStore,
    pub session_key: Option<KeyStore>,
    pub auth_token: Option<AuthToken>,
    pub identity: ClientIdentity,
    pub server: ServerModel,
    /// The requested ping interval in seconds, or 0 for none.
    pub ping_interval: u64,
    pub path: PathModel,
}

/// Random values that are at hand while a message is handled: a new key pair, and for
/// each address the values that a new context for it starts with.
pub struct Fresh {
    pub session_key: KeyStore,
    pub seeds: [Seed; 256],
}

/// Whether a client with the identity takes messages from the sender: from the server always,
/// from the initiator as a responder, and from a responder as the initiator.
pub open spec fn identity_listens_to(identity: ClientIdentity, source: Address) -> bool {
    ||| source.0 == 0x00
    ||| source.0 == 0x01 && identity is Responder
    ||| source.0 >= 0x02 && identity is Initiator
}

/// What is wrong with the sequence number of a message from the peer called `who`, given
/// the number of the last accepted message. The first message must have an overflow number
/// of 0, and every other one a number that is by one higher than the last.
pub open spec fn csn_fault(
    who: Seq<char>,
    last: Option<CombinedSequenceSnapshot>,
    csn: CombinedSequenceSnapshot,
) -> Option<Seq<char>> {
    match last {
        None => if csn.overflow != 0 {
            Some("first message from "@ + who + " must have set the overflow number to 0"@)
        } else {
            None
        },
        Some(last) => if csn.value() < last.value() {
            Some(who + " CSN is lower than last time"@)
        } else if csn.value() == last.value() {
            Some(who + " CSN hasn't been incremented"@)
        } else if csn.value() > last.value() + 1 {
            Some(who + " CSN has been incremented by more than 1"@)
        } else {
            None
        },
    }
}

/// What is wrong with the cookie of a message from the peer called `who`. The first one must
/// differ from ours, and it must stay the same from then on.
pub open spec fn cookie_fault(who: Seq<char>, pair: CookiePair, cookie: Cookie) -> Option<
    Seq<char>,
> {
    match pair.theirs {
        None => if cookie == pair.ours {
            Some("cookie from "@ + who + " is identical to our own cookie"@)
        } else {
            None
        },
        Some(theirs) => if cookie != theirs {
            Some("cookie from "@ + who + " has changed"@)
        } else {
            None
        },
    }
}

/// What is wrong with the nonce of a message from the peer.
pub open spec fn peer_fault(peer: PeerModel, nonce: Nonce) -> Option<Seq<char>> {
    match csn_fault(peer.identity.name(), peer.csn_pair.theirs, nonce.csn) {
        Some(fault) => Some(fault),
        None => cookie_fault(peer.identity.name(), peer.cookie_pair, nonce.cookie),
    }
}

/// The sequence numbers after a message from the peer: a correct number is remembered.
pub open spec fn csn_pair_after(peer: PeerModel, nonce: Nonce) -> CombinedSequencePair {
    if csn_fault(peer.identity.name(), peer.csn_pair.theirs, nonce.csn) is None {
        CombinedSequencePair { theirs: Some(nonce.csn), ..peer.csn_pair }
    } else {
        peer.csn_pair
    }
}

/// The cookies after a message from the peer: the cookie of a correct nonce is remembered.
pub open spec fn cookie_pair_after(peer: PeerModel, nonce: Nonce) -> CookiePair {
    if peer_fault(peer, nonce) is None {
        CookiePair { theirs: Some(nonce.cookie), ..peer.cookie_pair }
    } else {
        peer.cookie_pair
    }
}

/// The text of the failure to count up a sequence number.
pub open spec fn csn_exhausted() -> Seq<char> {
    "Could not increment CSN: "@ + CsnOverflow::message()
}

/// The state before the first message.
impl SignalingModel {
    /// The signaling of an initiator.
    pub open spec fn new_initiator(
        permanent_key: KeyStore,
        auth_token: AuthToken,
        server: Seed,
    ) -> SignalingModel {
        SignalingModel {
            signaling_state: SignalingState::ServerHandshake,
            permanent_key,
            session_key: None,
            auth_token: Some(auth_token),
            identity: ClientIdentity::Unknown,
            server: ServerModel::fresh(server),
            ping_interval: 0,
            path: PathModel::Initiator { responders: Map::empty(), responder: None },
        }
    }

    /// The signaling of a responder.
    pub open spec fn new_responder(
        permanent_key: KeyStore,
        initiator_pubkey: PublicKey,
        auth_token: Option<AuthToken>,
        server: Seed,
        initiator: Seed,
    ) -> SignalingModel {
        SignalingModel {
            signaling_state: SignalingState::ServerHandshake,
            permanent_key,
            session_key: None,
            auth_token,
            identity: ClientIdentity::Unknown,
            server: ServerModel::fresh(server),
            ping_interval: 0,
            path: PathModel::Responder {
                initiator: InitiatorContext::fresh(initiator_pubkey, initiator),
            },
        }
    }
}

/// Nonce validation.
impl SignalingModel {
    /// Our role.
    pub open spec fn role(self) -> Role {
        match self.path {
            PathModel::Initiator { .. } => Role::Initiator,
            PathModel::Responder { .. } => Role::Responder,
        }
    }

    /// No responder is known before the server has named them.
    pub open spec fn wf(self) -> bool {
        self.signaling_state is ServerHandshake ==> (self.path matches PathModel::Initiator {
            responders,
            ..
        } ==> responders == Map::<u8, ResponderContext>::empty())
    }

    /// The identity fits the role.
    pub open spec fn identity_fits(self) -> bool {
        self.identity is Unknown || self.role().may_hold(self.identity.holds())
    }

    /// Whether the message assigns us an identity: it is the first one that is addressed
    /// to other than 0x00 after the server's first message.
    pub open spec fn assigns(self, nonce: Nonce) -> bool {
        &&& self.identity is Unknown
        &&& nonce.destination.0 != 0x00
        &&& !(self.server.handshake_state is New)
    }

    /// Our identity once the message has been looked at.
    pub open spec fn identity_after(self, nonce: Nonce) -> ClientIdentity {
        if self.assigns(nonce) && self.role().may_hold(nonce.destination) {
            match self.role() {
                Role::Initiator => ClientIdentity::Initiator,
                Role::Responder => ClientIdentity::Responder(nonce.destination.0),
            }
        } else {
            self.identity
        }
    }

    /// Whether we take messages from the sender.
    pub open spec fn listens_to(self, source: Address) -> bool {
        identity_listens_to(self.identity, source)
    }

    /// The peer with the address.
    pub open spec fn peer_at(self, address: Address) -> Option<PeerModel> {
        if address.0 == 0x00 {
            Some(
                PeerModel {
                    identity: Identity::Server,
                    permanent_key: self.server.permanent_key,
                    session_key: self.server.session_key,
                    csn_pair: self.server.csn_pair,
                    cookie_pair: self.server.cookie_pair,
                },
            )
        } else {
            match self.path {
                PathModel::Initiator { responders, .. } => if address.0 >= 0x02
                    && responders.contains_key(address.0) {
                    Some(responders[address.0].peer())
                } else {
                    None
                },
                PathModel::Responder { initiator } => if address.0 == 0x01 {
                    Some(initiator.peer())
                } else {
                    None
                },
            }
        }
    }

    /// The state with the identity that the message leaves us with.
    pub open spec fn identified(self, nonce: Nonce) -> SignalingModel {
        SignalingModel { identity: self.identity_after(nonce), ..self }
    }

    /// What becomes of the message because of its addresses.
    pub open spec fn address_verdict(self, nonce: Nonce) -> Verdict {
        let s = self.identified(nonce);
        if self.assigns(nonce) && !self.role().may_hold(nonce.destination) {
            Verdict::Fail(
                "cannot assign address "@ + nonce.destination.name() + " to a client with role "@
                    + self.role().name(),
            )
        } else if nonce.destination != s.identity.holds() {
            Verdict::Fail(
                "bad destination: "@ + nonce.destination.name() + " (our identity is "@
                    + s.identity.name() + ")"@,
            )
        } else if !s.listens_to(nonce.source) {
            Verdict::Drop(
                "bad source: "@ + nonce.source.name() + " (our identity is "@ + s.identity.name()
                    + ")"@,
            )
        } else if s.peer_at(nonce.source) is None {
            Verdict::Fail(
                "could not find responder with address "@ + crate::text::decimal(
                    nonce.source.0 as nat,
                ),
            )
        } else {
            Verdict::Accept
        }
    }

    /// Whether the message comes to us, a responder, from the initiator.
    pub open spec fn from_initiator(self, nonce: Nonce) -> bool {
        let s = self.identified(nonce);
        &&& nonce.source.0 == 0x01
        &&& s.identity is Responder
        &&& s.identity.holds() == nonce.destination
    }

    /// What becomes of the message because of its nonce.
    pub open spec fn verdict(self, nonce: Nonce) -> Verdict {
        match self.address_verdict(nonce) {
            Verdict::Accept => match peer_fault(self.peer_at(nonce.source).unwrap(), nonce) {
                Some(fault) => Verdict::Fail(fault),
                None => Verdict::Accept,
            },
            other => other,
        }
    }

    /// The state once the nonce of the message has been looked at.
    pub open spec fn after_nonce(self, nonce: Nonce) -> SignalingModel {
        let s = self.identified(nonce);
        if self.address_verdict(nonce) is Accept {
            let peer = self.peer_at(nonce.source).unwrap();
            let csn_pair = csn_pair_after(peer, nonce);
            let cookie_pair = cookie_pair_after(peer, nonce);
            if nonce.source.0 == 0x00 {
                SignalingModel {
                    server: ServerModel { csn_pair, cookie_pair, ..s.server },
                    ..s
                }
            } else {
                SignalingModel {
                    path: match s.path {
                        PathModel::Initiator { responders, responder } => PathModel::Initiator {
                            responders: responders.insert(
                                nonce.source.0,
                                ResponderContext {
                                    csn_pair,
                                    cookie_pair,
                                    ..responders[nonce.source.0]
                                },
                            ),
                            responder,
                        },
                        PathModel::Responder { initiator } => PathModel::Responder {
                            initiator: InitiatorContext { csn_pair, cookie_pair, ..initiator },
                        },
                    },
                    ..s
                }
            }
        } else {
            s
        }
    }
}

/// The handshake with the server.
impl SignalingModel {
    /// The handshake has failed.
    pub open spec fn failed(self, msg: Seq<char>) -> SignalingModel {
        SignalingModel {
            server: ServerModel { handshake_state: ServerStateModel::Failure(msg), ..self.server },
            ..self
        }
    }

    /// How a message from the server is protected: not at all before the server has told its
    /// key, and for our permanent key after that. After a failure there is nothing to open.
    pub open spec fn opening(self) -> Result<Sealing, Seq<char>> {
        match self.server.handshake_state {
            ServerStateModel::New => Ok(Sealing::Plain),
            ServerStateModel::Failure(msg) => Err(msg),
            _ => match self.server.permanent_key {
                Some(key) => Ok(Sealing::Keys { our_key: self.permanent_key, their_key: key }),
                None => Err("Missing server permanent key"@),
            },
        }
    }

    /// How the handshake tells why a message could not be opened: for an encrypted message, in
    /// one line.
    pub open spec fn opening_failure(self, msg: Seq<char>) -> Seq<char> {
        if self.server.handshake_state is New {
            msg
        } else {
            crate::text::one_line(msg)
        }
    }

    /// The nonce of our next message to the server, and the state once it is used. There is
    /// none if all sequence numbers have been used up.
    pub open spec fn to_server(self) -> Option<(SignalingModel, Nonce)> {
        match self.server.csn_pair.ours.next() {
            None => None,
            Some(next) => Some(
                (
                    SignalingModel {
                        server: ServerModel {
                            csn_pair: CombinedSequencePair { ours: next, ..self.server.csn_pair },
                            ..self.server
                        },
                        ..self
                    },
                    Nonce {
                        cookie: self.server.cookie_pair.ours,
                        source: self.identity.holds(),
                        destination: Address(0x00),
                        csn: next.snapshot(),
                    },
                ),
            ),
        }
    }

    /// The nonce of a responder's next message to the initiator, and the state once it is
    /// used.
    pub open spec fn to_initiator(self) -> Option<(SignalingModel, Nonce)>
        recommends
            self.path is Responder,
    {
        let initiator = self.path->initiator;
        match initiator.csn_pair.ours.next() {
            None => None,
            Some(next) => Some(
                (
                    SignalingModel {
                        path: PathModel::Responder {
                            initiator: InitiatorContext {
                                csn_pair: CombinedSequencePair { ours: next, ..initiator.csn_pair },
                                ..initiator
                            },
                        },
                        ..self
                    },
                    Nonce {
                        cookie: initiator.cookie_pair.ours,
                        source: self.identity.holds(),
                        destination: Address(0x01),
                        csn: next.snapshot(),
                    },
                ),
            ),
        }
    }

    /// Our answer to the server's first message: a responder tells its permanent key, and
    /// then everyone authenticates. A text tells why there is no answer.
    pub open spec fn on_server_hello(self, key: PublicKey) -> (
        SignalingModel,
        Result<Seq<ActionModel>, Seq<char>>,
    ) {
        let keyed = SignalingModel {
            server: ServerModel { permanent_key: Some(key), ..self.server },
            ..self
        };
        if self.server.permanent_key is Some {
            (self, Err("Server permanent key is already set"@))
        } else {
            match self.role() {
                Role::Initiator => keyed.authenticated(seq![]),
                Role::Responder => match keyed.to_server() {
                    None => (keyed, Err(csn_exhausted())),
                    Some((greeted, nonce)) => greeted.authenticated(
                        seq![
                            ActionModel::Reply(
                                OutBoxModel {
                                    payload: PayloadModel::Message(
                                        MessageModel::ClientHello(self.permanent_key.public_key),
                                    ),
                                    nonce,
                                    sealing: Sealing::Plain,
                                },
                            ),
                        ],
                    ),
                },
            }
        }
    }

    /// Our authentication towards the server, after the other actions.
    pub open spec fn authenticated(self, actions: Seq<ActionModel>) -> (
        SignalingModel,
        Result<Seq<ActionModel>, Seq<char>>,
    ) {
        match self.to_server() {
            None => (self, Err(csn_exhausted())),
            Some((s, nonce)) => (
                SignalingModel {
                    server: ServerModel {
                        handshake_state: ServerStateModel::ClientInfoSent,
                        ..s.server
                    },
                    ..s
                },
                Ok(
                    actions.push(
                        ActionModel::Reply(
                            OutBoxModel {
                                payload: PayloadModel::Message(
                                    MessageModel::ClientAuth(
                                        ClientAuthModel {
                                            your_cookie: self.server.cookie_pair.theirs.unwrap(),
                                            subprotocols: seq![subprotocol()],
                                            ping_interval: self.ping_interval,
                                            your_key: None,
                                        },
                                    ),
                                ),
                                nonce,
                                sealing: Sealing::Keys {
                                    our_key: self.permanent_key,
                                    their_key: self.server.permanent_key.unwrap(),
                                },
                            },
                        ),
                    ),
                ),
            ),
        }
    }

    /// What an initiator makes of the server's authentication: it takes up the responders.
    pub open spec fn initiator_auth(self, auth: ServerAuthModel, seeds: Seq<Seed>) -> (
        SignalingModel,
        Result<Seq<ActionModel>, Seq<char>>,
    )
        recommends
            self.path is Initiator,
    {
        if auth.initiator_connected is Some {
            (
                self,
                Err(
                    "we're the initiator, but the `initiator_connected` field in the server-auth message is set"@,
                ),
            )
        } else {
            match auth.responders {
                None => (self, Err("`responders` field in server-auth message not set"@)),
                Some(addresses) => if exists|i: int|
                    0 <= i < addresses.len() && (#[trigger] addresses[i]).0 < 0x02 {
                    (
                        self,
                        Err(
                            "`responders` field in server-auth message may not contain addresses <0x02"@,
                        ),
                    )
                } else if !addresses.no_duplicates() {
                    (
                        self,
                        Err("`responders` field in server-auth message may not contain duplicates"@),
                    )
                } else {
                    (
                        SignalingModel {
                            path: PathModel::Initiator {
                                responders: with_responders(
                                    self.path->responders,
                                    addresses,
                                    seeds,
                                ),
                                responder: self.path->responder,
                            },
                            ..self
                        },
                        Ok(seq![]),
                    )
                },
            }
        }
    }

    /// A responder's token message, if it has an auth token.
    pub open spec fn token_sent(self) -> (SignalingModel, Result<Seq<ActionModel>, Seq<char>>)
        recommends
            self.path is Responder,
    {
        match self.auth_token {
            None => (self, Ok(seq![])),
            Some(token) => match self.to_initiator() {
                None => (self, Err(csn_exhausted())),
                Some((s, nonce)) => (
                    s,
                    Ok(
                        seq![
                            ActionModel::Reply(
                                OutBoxModel {
                                    payload: PayloadModel::Message(
                                        MessageModel::Token(self.permanent_key.public_key),
                                    ),
                                    nonce,
                                    sealing: Sealing::Token(token),
                                },
                            ),
                        ],
                    ),
                ),
            },
        }
    }

    /// A new session key is taken up, unless there is one.
    pub open spec fn session_key_made(self, session_key: KeyStore) -> (
        SignalingModel,
        Result<(), Seq<char>>,
    ) {
        if self.session_key is Some {
            (self, Err("Cannot generate new session key: It has already been generated"@))
        } else {
            (SignalingModel { session_key: Some(session_key), ..self }, Ok(()))
        }
    }

    /// A responder's key message, for which there must be a session key.
    pub open spec fn key_sent(self) -> (SignalingModel, Result<ActionModel, Seq<char>>)
        recommends
            self.path is Responder,
    {
        match self.session_key {
            None => (self, Err("Missing session keypair"@)),
            Some(session_key) => match self.to_initiator() {
                None => (self, Err(csn_exhausted())),
                Some((s, nonce)) => (
                    s,
                    Ok(
                        ActionModel::Reply(
                            OutBoxModel {
                                payload: PayloadModel::Message(
                                    MessageModel::Key(session_key.public_key),
                                ),
                                nonce,
                                sealing: Sealing::Keys {
                                    our_key: self.permanent_key,
                                    their_key: self.path->initiator.permanent_key,
                                },
                            },
                        ),
                    ),
                ),
            },
        }
    }

    /// What a responder makes of the server's authentication: if the initiator is there, it
    /// sends its token and a new session key.
    pub open spec fn responder_auth(self, auth: ServerAuthModel, session_key: KeyStore) -> (
        SignalingModel,
        Result<Seq<ActionModel>, Seq<char>>,
    )
        recommends
            self.path is Responder,
    {
        if auth.responders is Some {
            (
                self,
                Err(
                    "we're a responder, but the `responders` field in the server-auth message is set"@,
                ),
            )
        } else {
            match auth.initiator_connected {
                None => (
                    self,
                    Err(
                        "we're a responder, but the `initiator_connected` field in the server-auth message is not set"@,
                    ),
                ),
                Some(false) => (self, Ok(seq![])),
                Some(true) => match self.token_sent() {
                    (s, Err(msg)) => (s, Err(msg)),
                    (s, Ok(actions)) => match s.session_key_made(session_key) {
                        (keyed, Err(msg)) => (keyed, Err(msg)),
                        (keyed, Ok(_)) => match keyed.key_sent() {
                            (t, Err(msg)) => (t, Err(msg)),
                            (t, Ok(action)) => (
                                SignalingModel {
                                    path: PathModel::Responder {
                                        initiator: InitiatorContext {
                                            handshake_state: InitiatorHandshakeState::KeySent,
                                            ..t.path->initiator
                                        },
                                    },
                                    ..t
                                },
                                Ok(actions.push(action)),
                            ),
                        },
                    },
                },
            }
        }
    }

    /// What we make of the server's authentication. If there is nothing wrong with it, the
    /// handshake with the server is done and that with the peer begins, unless it has begun
    /// before.
    pub open spec fn on_server_auth(self, auth: ServerAuthModel, fresh: Fresh) -> (
        SignalingModel,
        Result<Seq<ActionModel>, Seq<char>>,
    ) {
        if self.identity is Unknown {
            (self, Err("No identity assigned"@))
        } else if auth.your_cookie != self.server.cookie_pair.ours {
            (self, Err("cookie sent in server-auth message does not match our cookie"@))
        } else {
            let (s, result) = match self.role() {
                Role::Initiator => self.initiator_auth(auth, fresh.seeds@),
                Role::Responder => self.responder_auth(auth, fresh.session_key),
            };
            match result {
                Err(msg) => (s, Err(msg)),
                Ok(actions) => {
                    let done = SignalingModel {
                        server: ServerModel {
                            handshake_state: ServerStateModel::Done,
                            ..s.server
                        },
                        ..s
                    };
                    if self.signaling_state is ServerHandshake {
                        (
                            SignalingModel {
                                signaling_state: SignalingState::PeerHandshake,
                                ..done
                            },
                            Ok(actions),
                        )
                    } else {
                        (done, Err(SignalingFault::InvalidStateTransition("foo"@).message()))
                    }
                },
            }
        }
    }

    /// What we make of an opened message from the server.
    pub open spec fn on_server_message(self, msg: MessageModel, fresh: Fresh) -> (
        SignalingModel,
        Result<Seq<ActionModel>, Seq<char>>,
    ) {
        match (self.server.handshake_state, msg) {
            (ServerStateModel::New, MessageModel::ServerHello(key)) => self.on_server_hello(key),
            (ServerStateModel::ClientInfoSent, MessageModel::ServerAuth(auth)) => {
                self.on_server_auth(auth, fresh)
            },
            (ServerStateModel::Failure(_), _) => (self, Ok(seq![])),
            (state, msg) => (
                self,
                Err("Invalid state transition: "@ + state.name() + " <- "@ + msg.tag()),
            ),
        }
    }

    /// Whether the message would have to be answered with a cookie of the server that is not
    /// there: a first message that comes from someone else.
    pub open spec fn lacks_cookie(
        self,
        nonce: Nonce,
        opened: Result<MessageModel, Seq<char>>,
    ) -> bool {
        &&& self.verdict(nonce) is Accept
        &&& self.server.handshake_state is New
        &&& self.server.permanent_key is None
        &&& self.after_nonce(nonce).server.cookie_pair.theirs is None
        &&& opened matches Ok(MessageModel::ServerHello(_))
    }

    /// What a message does during the handshake with the server, and which actions follow.
    /// `opened` is what opening the message gave, or why it could not be opened. Whatever is
    /// wrong with a message that is not discarded lets the handshake fail, and then nothing
    /// is sent.
    pub open spec fn on_message(
        self,
        nonce: Nonce,
        opened: Result<MessageModel, Seq<char>>,
        fresh: Fresh,
    ) -> (SignalingModel, Seq<ActionModel>) {
        let s = self.after_nonce(nonce);
        match self.verdict(nonce) {
            Verdict::Drop(_) => (s, seq![]),
            Verdict::Fail(reason) => (s.failed("invalid nonce: "@ + reason), seq![]),
            Verdict::Accept => match (s.opening(), opened) {
                (Err(msg), _) => (s.failed(msg), seq![]),
                (Ok(_), Err(msg)) => (s.failed(s.opening_failure(msg)), seq![]),
                (Ok(_), Ok(msg)) => match s.on_server_message(msg, fresh) {
                    (t, Err(msg)) => (t.failed(msg), seq![]),
                    (t, Ok(actions)) => (t, actions),
                },
            },
        }
    }
}

/// The responders with those at `addresses` added, each as it is before its first message.
pub open spec fn with_responders(
    responders: Map<u8, ResponderContext>,
    addresses: Seq<Address>,
    seeds: Seq<Seed>,
) -> Map<u8, ResponderContext> {
    Map::new(
        |a: u8| responders.contains_key(a) || addresses.contains(Address(a)),
        |a: u8|
            if addresses.contains(Address(a)) {
                ResponderContext::fresh(Address(a), seeds[a as int])
            } else {
                responders[a]
            },
    )
}

/// Messages to the peer once the task has taken over.
impl SignalingModel {
    /// The peer that the task talks to.
    pub open spec fn task_peer(self) -> Option<PeerModel> {
        match self.path {
            PathModel::Initiator { responders, responder } => match responder {
                Some(address) => if responders.contains_key(address.0) {
                    Some(responders[address.0].peer())
                } else {
                    None
                },
                None => None,
            },
            PathModel::Responder { initiator } => Some(initiator.peer()),
        }
    }

    /// The state with another pair of sequence numbers for the peer that the task talks to.
    pub open spec fn with_task_csn_pair(self, csn_pair: CombinedSequencePair) -> SignalingModel {
        SignalingModel {
            path: match self.path {
                PathModel::Initiator { responders, responder } => PathModel::Initiator {
                    responders: responders.insert(
                        responder.unwrap().0,
                        ResponderContext { csn_pair, ..responders[responder.unwrap().0] },
                    ),
                    responder,
                },
                PathModel::Responder { initiator } => PathModel::Responder {
                    initiator: InitiatorContext { csn_pair, ..initiator },
                },
            },
            ..self
        }
    }

    /// A box for the peer that the task talks to, encrypted with the session keys, and the
    /// state once it is made.
    pub open spec fn boxed_for_peer(self, payload: PayloadModel) -> Result<
        (SignalingModel, OutBoxModel),
        SignalingFault,
    > {
        if !(self.signaling_state is Task) {
            Err(SignalingFault::Crash("Signaling is not in task state"@))
        } else {
            match (self.task_peer(), self.session_key) {
                (None, _) => Err(SignalingFault::Crash("No peer selected"@)),
                (Some(_), None) => Err(SignalingFault::Crash("Missing session keypair"@)),
                (Some(peer), Some(our_key)) => match (peer.session_key, peer.csn_pair.ours.next()) {
                    (None, _) => Err(SignalingFault::Crash("Missing session key of the peer"@)),
                    (Some(_), None) => Err(SignalingFault::CsnOverflow),
                    (Some(their_key), Some(next)) => Ok(
                        (
                            self.with_task_csn_pair(
                                CombinedSequencePair { ours: next, ..peer.csn_pair },
                            ),
                            OutBoxModel {
                                payload,
                                nonce: Nonce {
                                    cookie: peer.cookie_pair.ours,
                                    source: self.identity.holds(),
                                    destination: peer.identity.holds(),
                                    csn: next.snapshot(),
                                },
                                sealing: Sealing::Keys { our_key, their_key },
                            },
                        ),
                    ),
                },
            }
        }
    }
}

} // verus!
