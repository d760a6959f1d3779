//! Protocol state machines.
//!
//! These state machines handle all state transitions independently of the
//! connection. Instead of executing side effects (like sending a response
//! message to the peer through the websocket), a `HandleAction` is returned.
//! What takes a random source or a cipher is handed in, and what has to be
//! encrypted is handed out together with the keys.
//!
//! This allows for better decoupling between protocol logic and network code,
//! and makes it possible to easily add tests.

use std::collections::hash_map::Entry;
use std::collections::{HashMap, HashSet};
use std::time::Duration;

use vstd::prelude::*;
use vstd::string::*;

use crate::boxes::{ByteBox, OpenBox, OutBox, OutBoxModel, Payload, PayloadModel, Sealing};
use crate::crypto::{AuthToken, KeyStore, PublicKey};
use crate::errors::{SignalingError, SignalingFault, SignalingResult};
use crate::text::{decimal_text, one_line, one_line_has_no_line_break, one_line_text};
use crate::CloseCode;

pub mod context;
pub mod cookie;
pub mod csn;
pub mod laws;
pub mod messages;
pub mod model;
pub mod nonce;
pub mod state;
pub mod types;

use self::context::{InitiatorContext, PeerContext, ResponderContext, ServerContext};
use self::cookie::{Cookie, CookiePair, Seed};
use self::csn::{CombinedSequencePair, CombinedSequenceSnapshot};
use self::messages::{ClientAuth, ClientHello, Close, Key, Message, MessageModel};
use self::messages::{ServerAuth, ServerHello, Token};
use self::model::{Fresh, PathModel, SignalingModel, Verdict};
use self::nonce::Nonce;
use self::state::{FailureMsg, InitiatorHandshakeState, ServerHandshakeState, SignalingState};
use self::types::{action_models, ActionModel, Address, ClientIdentity, HandleAction, Identity, Role};

verus! {

broadcast use vstd::std_specs::hash::group_hash_axioms;

/// The name of the websocket subprotocol.
pub const SUBPROTOCOL: &'static str = "v1.saltyrtc.org";

/// Names what `Duration::as_secs` returns: the number of whole seconds in the duration.
pub uninterp spec fn whole_seconds(duration: Duration) -> u64;

/// `std::time::Duration::as_secs` returns the number of whole seconds that the duration
/// contains, without the fraction.
pub assume_specification[ Duration::as_secs ](duration: &Duration) -> (seconds: u64)
    ensures
        seconds == whole_seconds(*duration),
;

/// The ping interval that is requested from the server, in seconds. 0 stands for none.
pub open spec fn requested_interval(interval: Option<Duration>) -> u64 {
    match interval {
        Some(duration) => whole_seconds(duration),
        None => 0,
    }
}

/// The ping interval that is requested from the server, in seconds.
fn ping_seconds(interval: &Option<Duration>) -> (seconds: u64)
    ensures
        seconds == requested_interval(*interval),
{
    match interval {
        Some(duration) => duration.as_secs(),
        None => 0,
    }
}

/// The model of what opening a message gave.
pub open spec fn opened_model(opened: Result<Message, String>) -> Result<MessageModel, Seq<char>> {
    match opened {
        Ok(msg) => Ok(msg@),
        Err(msg) => Err(msg@),
    }
}

/// The model of the actions that follow a message, or of the reason why it is refused.
pub open spec fn outcome_model(result: Result<Vec<HandleAction>, String>) -> Result<
    Seq<ActionModel>,
    Seq<char>,
> {
    match result {
        Ok(actions) => Ok(action_models(actions@)),
        Err(msg) => Err(msg@),
    }
}

/// Result of the nonce validation.
#[derive(Debug, PartialEq, Eq)]
pub enum ValidationResult {
    /// The nonce is valid.
    Valid,
    /// The message is to be discarded.
    DropMsg(String),
    /// The handshake is to fail.
    Fail(String),
}

impl View for ValidationResult {
    type V = Verdict;

    open spec fn view(&self) -> Verdict {
        match self {
            ValidationResult::Valid => Verdict::Accept,
            ValidationResult::DropMsg(msg) => Verdict::Drop(msg@),
            ValidationResult::Fail(msg) => Verdict::Fail(msg@),
        }
    }
}

/// Check the sequence number of a message from a peer, and remember it if it is correct.
///
/// In case this is the first message received from the sender, the overflow number must
/// be 0. Otherwise, the combined sequence number must have been increased by 1.
fn validate_csn(
    identity: &Identity,
    pair: &mut CombinedSequencePair,
    current: &CombinedSequenceSnapshot,
) -> (result: Result<(), String>)
    ensures
        match model::csn_fault(identity.name(), old(pair).theirs, *current) {
            Some(fault) => {
                &&& *final(pair) == *old(pair)
                &&& result matches Err(msg) && msg@ == fault
            },
            None => {
                &&& *final(pair) == (CombinedSequencePair { theirs: Some(*current), ..*old(pair) })
                &&& result is Ok
            },
        },
{
    match pair.theirs {
        Some(previous) => {
            let last: u64 = previous.number();
            let number: u64 = current.number();
            if number < last {
                return Err(identity.text().concat(" CSN is lower than last time"));
            } else if number == last {
                return Err(identity.text().concat(" CSN hasn't been incremented"));
            } else if number > last + 1 {
                return Err(identity.text().concat(" CSN has been incremented by more than 1"));
            }
        },
        None => {
            if current.overflow_number() != 0 {
                return Err(
                    "first message from ".to_string().concat(identity.text().as_str()).concat(
                        " must have set the overflow number to 0",
                    ),
                );
            }
        },
    }
    pair.theirs = Some(*current);
    Ok(())
}

/// Check the cookie of a message from a peer, and remember it if it is correct.
///
/// In case this is the first message received from the sender, the cookie must differ from
/// our own one. Otherwise, it must not have changed.
fn validate_cookie(identity: &Identity, pair: &mut CookiePair, cookie: &Cookie) -> (result: Result<
    (),
    String,
>)
    ensures
        match model::cookie_fault(identity.name(), *old(pair), *cookie) {
            Some(fault) => {
                &&& *final(pair) == *old(pair)
                &&& result matches Err(msg) && msg@ == fault
            },
            None => {
                &&& *final(pair) == (CookiePair { theirs: Some(*cookie), ..*old(pair) })
                &&& result is Ok
            },
        },
{
    match pair.theirs {
        None => {
            if *cookie == pair.ours {
                return Err(
                    "cookie from ".to_string().concat(identity.text().as_str()).concat(
                        " is identical to our own cookie",
                    ),
                );
            }
            pair.theirs = Some(*cookie);
        },
        Some(theirs) => {
            if *cookie != theirs {
                return Err(
                    "cookie from ".to_string().concat(identity.text().as_str()).concat(
                        " has changed",
                    ),
                );
            }
        },
    }
    Ok(())
}

/// Check the sequence number and the cookie of a message from a peer, and remember what is
/// correct.
fn validate_peer<P: PeerContext>(peer: &mut P, nonce: &Nonce) -> (result: Result<(), String>)
    ensures
        match model::peer_fault(old(peer).peer(), *nonce) {
            Some(fault) => result matches Err(msg) && msg@ == fault,
            None => result is Ok,
        },
        ({
            let numbered = old(peer).with_csn_pair(
                model::csn_pair_after(old(peer).peer(), *nonce),
            );
            if model::csn_fault(
                old(peer).peer().identity.name(),
                old(peer).peer().csn_pair.theirs,
                nonce.csn,
            ) is Some {
                *final(peer) == numbered
            } else {
                *final(peer) == numbered.with_cookie_pair(
                    model::cookie_pair_after(old(peer).peer(), *nonce),
                )
            }
        }),
{
    let identity = peer.identity();
    match validate_csn(&identity, peer.csn_pair_mut(), nonce.csn()) {
        Err(msg) => {
            return Err(msg);
        },
        Ok(()) => {},
    }
    validate_cookie(&identity, peer.cookie_pair_mut(), nonce.cookie())
}

/// Whether a client with the identity takes messages from the sender.
fn listens_to(identity: &ClientIdentity, source: &Address) -> (r: bool)
    ensures
        r == model::identity_listens_to(*identity, *source),
{
    match identity {
        ClientIdentity::Unknown => source.is_unknown(),
        ClientIdentity::Initiator => source.is_unknown() || source.is_responder(),
        ClientIdentity::Responder(_) => source.is_unknown() || source.is_initiator(),
    }
}

/// Why a client with the identity discards messages from the sender.
fn bad_source(identity: &ClientIdentity, source: &Address) -> (text: String)
    ensures
        text@ == "bad source: "@ + source.name() + " (our identity is "@ + identity.name() + ")"@,
{
    "bad source: ".to_string().concat(source.text().as_str()).concat(" (our identity is ").concat(
        identity.text().as_str(),
    ).concat(")")
}

/// The error for a message from a responder that is not known.
fn unknown_responder(source: &Address) -> (text: String)
    ensures
        text@ == "could not find responder with address "@ + crate::text::decimal(source.0 as nat),
{
    "could not find responder with address ".to_string().concat(
        decimal_text(source.0 as u16).as_str(),
    )
}

/// Signaling data for the initiator.
pub struct InitiatorSignaling {
    // The signaling state
    pub signaling_state: SignalingState,
    // Our permanent keypair
    pub permanent_key: KeyStore,
    // Our session keypair
    pub session_key: Option<KeyStore>,
    // An optional auth token
    pub auth_token: Option<AuthToken>,
    // The assigned client identity
    pub identity: ClientIdentity,
    // The server context
    pub server: ServerContext,
    // The interval of the pings that the server is asked for
    pub ping_interval: Option<Duration>,
    // The list of responders
    pub responders: HashMap<u8, ResponderContext>,
    // The responder that was picked
    pub responder: Option<Address>,
}

impl View for InitiatorSignaling {
    type V = SignalingModel;

    open spec fn view(&self) -> SignalingModel {
        SignalingModel {
            signaling_state: self.signaling_state,
            permanent_key: self.permanent_key,
            session_key: self.session_key,
            auth_token: self.auth_token,
            identity: self.identity,
            server: self.server@,
            ping_interval: requested_interval(self.ping_interval),
            path: PathModel::Initiator {
                responders: self.responders@,
                responder: self.responder,
            },
        }
    }
}

impl InitiatorSignaling {
    /// The signaling of an initiator before the first message.
    pub fn new(permanent_key: KeyStore, auth_token: AuthToken, server: Seed) -> (signaling: Self)
        ensures
            signaling@ == SignalingModel::new_initiator(permanent_key, auth_token, server),
            signaling.ping_interval is None,
    {
        InitiatorSignaling {
            signaling_state: SignalingState::ServerHandshake,
            identity: ClientIdentity::Unknown,
            server: ServerContext::new(server),
            permanent_key,
            session_key: None,
            auth_token: Some(auth_token),
            ping_interval: None,
            responders: HashMap::new(),
            responder: None,
        }
    }

    /// Take up the responders that the server names.
    pub fn handle_server_auth(&mut self, msg: &ServerAuth, seeds: &[Seed; 256]) -> (result: Result<
        Vec<HandleAction>,
        String,
    >)
        ensures
            final(self)@ == old(self)@.initiator_auth(msg@, seeds@).0,
            outcome_model(result) == old(self)@.initiator_auth(msg@, seeds@).1,
    {
        // In case the client is the initiator, it SHALL check
        // that the responders field is set and contains an
        // Array of responder identities.
        if msg.initiator_connected.is_some() {
            return Err(
                "we're the initiator, but the `initiator_connected` field in the server-auth message is set".to_string(),
            );
        }
        let responders: &Vec<Address> = match &msg.responders {
            Some(responders) => responders,
            None => {
                return Err("`responders` field in server-auth message not set".to_string());
            },
        };

        // The responder identities MUST be validated and SHALL
        // neither contain addresses outside the range
        // 0x02..0xff
        let mut i: usize = 0;
        while i < responders.len()
            invariant
                i <= responders@.len(),
                msg@.initiator_connected is None,
                msg@.responders == Some(responders@),
                forall|j: int| 0 <= j < i ==> (#[trigger] responders@[j]).0 >= 0x02,
                *self == *old(self),
            decreases responders@.len() - i,
        {
            if !responders[i].is_responder() {
                assert(responders@[i as int].0 < 0x02);
                return Err(
                    "`responders` field in server-auth message may not contain addresses <0x02".to_string(),
                );
            }
            i = i + 1;
        }

        // ...nor SHALL an address be repeated in the
        // Array.
        let mut seen: HashSet<u8> = HashSet::new();
        let mut i: usize = 0;
        while i < responders.len()
            invariant
                i <= responders@.len(),
                msg@.initiator_connected is None,
                msg@.responders == Some(responders@),
                forall|j: int| 0 <= j < responders@.len() ==> (#[trigger] responders@[j]).0 >= 0x02,
                forall|j: int, k: int|
                    0 <= j < i && 0 <= k < i && j != k ==> responders@[j] != responders@[k],
                forall|j: int| 0 <= j < i ==> seen@.contains((#[trigger] responders@[j]).0),
                forall|a: u8| seen@.contains(a) ==> responders@.take(i as int).contains(Address(a)),
                *self == *old(self),
            decreases responders@.len() - i,
        {
            let ghost before = seen@;
            if !seen.insert(responders[i].0) {
                proof {
                    let taken = responders@.take(i as int);
                    assert(taken.contains(Address(responders@[i as int].0)));
                    let j = choose|j: int|
                        0 <= j < taken.len() && taken[j] == Address(responders@[i as int].0);
                    assert(responders@[j] == responders@[i as int]);
                    assert(!responders@.no_duplicates());
                }
                return Err(
                    "`responders` field in server-auth message may not contain duplicates".to_string(),
                );
            }
            i = i + 1;
            assert forall|a: u8| seen@.contains(a) implies responders@.take(i as int).contains(
                Address(a),
            ) by {
                let taken = responders@.take(i as int);
                if before.contains(a) {
                    let earlier = responders@.take(i - 1);
                    let j = choose|j: int| 0 <= j < earlier.len() && earlier[j] == Address(a);
                    assert(taken[j] == Address(a));
                } else {
                    assert(taken[i - 1] == Address(a));
                }
            }
        }
        assert(responders@.no_duplicates());

        // An empty Array SHALL be considered valid. However,
        // Nil SHALL NOT be considered a valid value of that
        // field.

        // It SHOULD store the responder's identities in its
        // internal list of responders.
        let ghost known = self.responders@;
        let mut i: usize = 0;
        assert(self.responders@ =~= model::with_responders(
            known,
            responders@.take(0),
            seeds@,
        ));
        while i < responders.len()
            invariant
                i <= responders@.len(),
                known == old(self).responders@,
                self.responders@ == model::with_responders(
                    known,
                    responders@.take(i as int),
                    seeds@,
                ),
                *self == (InitiatorSignaling { responders: self.responders, ..*old(self) }),
            decreases responders@.len() - i,
        {
            let address = responders[i];
            self.responders.insert(
                address.0,
                ResponderContext::new(address, seeds[address.0 as usize]),
            );
            proof {
                let earlier = responders@.take(i as int);
                let taken = responders@.take(i + 1);
                assert(taken =~= earlier.push(address));
                assert forall|a: u8| #[trigger] taken.contains(Address(a)) == (earlier.contains(
                    Address(a),
                ) || a == address.0) by {
                    if earlier.contains(Address(a)) {
                        let j = choose|j: int| 0 <= j < earlier.len() && earlier[j] == Address(a);
                        assert(taken[j] == Address(a));
                    }
                    if a == address.0 {
                        assert(taken[i as int] == Address(a));
                    }
                }
                assert(self.responders@ =~= model::with_responders(known, taken, seeds@));
            }
            i = i + 1;
        }
        assert(responders@.take(responders@.len() as int) =~= responders@);
        let actions: Vec<HandleAction> = Vec::new();
        assert(action_models(actions@) =~= Seq::<ActionModel>::empty());
        Ok(actions)
    }
}

/// Signaling data for the responder.
pub struct ResponderSignaling {
    // The signaling state
    pub signaling_state: SignalingState,
    // Our permanent keypair
    pub permanent_key: KeyStore,
    // Our session keypair
    pub session_key: Option<KeyStore>,
    // An optional auth token
    pub auth_token: Option<AuthToken>,
    // The assigned client identity
    pub identity: ClientIdentity,
    // The server context
    pub server: ServerContext,
    // The interval of the pings that the server is asked for
    pub ping_interval: Option<Duration>,
    // The initiator context
    pub initiator: InitiatorContext,
}

impl View for ResponderSignaling {
    type V = SignalingModel;

    open spec fn view(&self) -> SignalingModel {
        SignalingModel {
            signaling_state: self.signaling_state,
            permanent_key: self.permanent_key,
            session_key: self.session_key,
            auth_token: self.auth_token,
            identity: self.identity,
            server: self.server@,
            ping_interval: requested_interval(self.ping_interval),
            path: PathModel::Responder { initiator: self.initiator },
        }
    }
}

impl ResponderSignaling {
    /// The signaling of a responder before the first message.
    pub fn new(
        permanent_key: KeyStore,
        initiator_pubkey: PublicKey,
        auth_token: Option<AuthToken>,
        server: Seed,
        initiator: Seed,
    ) -> (signaling: Self)
        ensures
            signaling@ == SignalingModel::new_responder(
                permanent_key,
                initiator_pubkey,
                auth_token,
                server,
                initiator,
            ),
            signaling.ping_interval is None,
    {
        ResponderSignaling {
            signaling_state: SignalingState::ServerHandshake,
            permanent_key,
            session_key: None,
            auth_token,
            identity: ClientIdentity::Unknown,
            server: ServerContext::new(server),
            ping_interval: None,
            initiator: InitiatorContext::new(initiator_pubkey, initiator),
        }
    }

    /// If the initiator is there, send it our token and a new session key.
    pub fn handle_server_auth(&mut self, msg: &ServerAuth, session_key: &KeyStore) -> (result: Result<
        Vec<HandleAction>,
        String,
    >)
        requires
            *session_key != old(self).permanent_key,
        ensures
            final(self)@ == old(self)@.responder_auth(msg@, *session_key).0,
            outcome_model(result) == old(self)@.responder_auth(msg@, *session_key).1,
    {
        // In case the client is the responder, it SHALL check
        // that the initiator_connected field contains a
        // boolean value.
        if msg.responders.is_some() {
            return Err(
                "we're a responder, but the `responders` field in the server-auth message is set".to_string(),
            );
        }
        let mut actions: Vec<HandleAction> = Vec::new();
        assert(action_models(actions@) =~= Seq::<ActionModel>::empty());
        match msg.initiator_connected {
            Some(true) => {
                match self.auth_token {
                    Some(token) => {
                        match self.send_token(&token) {
                            Ok(action) => {
                                actions.push(action);
                                assert(action_models(actions@) =~= seq![action@]);
                            },
                            Err(msg) => {
                                return Err(msg);
                            },
                        }
                    },
                    None => {},
                }
                match self.generate_session_key(session_key) {
                    Ok(()) => {},
                    Err(msg) => {
                        return Err(msg);
                    },
                }
                let ghost before = actions@;
                match self.send_key() {
                    Ok(action) => {
                        actions.push(action);
                        assert(action_models(actions@) =~= action_models(before).push(action@));
                    },
                    Err(msg) => {
                        return Err(msg);
                    },
                }
                self.initiator.set_handshake_state(InitiatorHandshakeState::KeySent);
            },
            Some(false) => {},
            None => {
                return Err(
                    "we're a responder, but the `initiator_connected` field in the server-auth message is not set".to_string(),
                );
            },
        }
        Ok(actions)
    }

    /// Take up a new session key, unless there is one.
    ///
    /// The client MUST generate a session key pair (a new NaCl key pair for
    /// public key authenticated encryption) for further communication with
    /// the other client. It is another one than the permanent key pair.
    pub fn generate_session_key(&mut self, session_key: &KeyStore) -> (result: Result<(), String>)
        requires
            old(self).session_key is None ==> *session_key != old(self).permanent_key,
        ensures
            match old(self).session_key {
                Some(_) => {
                    &&& *final(self) == *old(self)
                    &&& result matches Err(msg) && msg@
                        == "Cannot generate new session key: It has already been generated"@
                },
                None => {
                    &&& *final(self) == (ResponderSignaling {
                        session_key: Some(*session_key),
                        ..*old(self)
                    })
                    &&& result is Ok
                },
            },
            final(self)@ == old(self)@.session_key_made(*session_key).0,
            result is Ok <==> old(self)@.session_key_made(*session_key).1 is Ok,
            result is Ok ==> final(self).session_key != Some(final(self).permanent_key),
    {
        if self.session_key.is_some() {
            return Err(
                "Cannot generate new session key: It has already been generated".to_string(),
            );
        }
        self.session_key = Some(*session_key);
        Ok(())
    }

    /// Build a `Token` message.
    ///
    /// If everything succeeds, a `Reply` handle action is returned.
    /// If an error occurs, a string with the error message is returned. This
    /// should return in a protocol error.
    pub fn send_token(&mut self, token: &AuthToken) -> (result: Result<HandleAction, String>)
        ensures
            match old(self)@.to_initiator() {
                Some((after, nonce)) => {
                    &&& final(self)@ == after
                    &&& result matches Ok(action) && action@ == ActionModel::Reply(
                        OutBoxModel {
                            payload: PayloadModel::Message(
                                MessageModel::Token(old(self).permanent_key.public_key),
                            ),
                            nonce,
                            sealing: Sealing::Token(*token),
                        },
                    )
                },
                None => {
                    &&& final(self)@ == old(self)@
                    &&& result matches Err(msg) && msg@ == model::csn_exhausted()
                },
            },
    {
        // The responder MUST set the public key (32 bytes) of the permanent
        // key pair in the key field of this message.
        let msg: Message = Token::new(*self.permanent_key.public_key()).into_message();
        let nonce = match self.initiator_nonce() {
            Ok(nonce) => nonce,
            Err(msg) => {
                return Err(msg);
            },
        };
        let obox = OpenBox::new(msg, nonce);

        // The message SHALL be NaCl secret key encrypted by the token the
        // initiator created and issued to the responder.
        let out = obox.encrypt_token(token);
        Ok(HandleAction::Reply(out))
    }

    /// Build a `Key` message.
    ///
    /// If everything succeeds, a `Reply` handle action is returned.
    /// If an error occurs, a string with the error message is returned. This
    /// should return in a protocol error.
    pub fn send_key(&mut self) -> (result: Result<HandleAction, String>)
        ensures
            final(self)@ == old(self)@.key_sent().0,
            match old(self)@.key_sent().1 {
                Ok(expected) => result matches Ok(action) && action@ == expected,
                Err(text) => result matches Err(msg) && msg@ == text,
            },
    {
        // It MUST set the public key (32 bytes) of that key pair in the key field.
        let msg: Message = match &self.session_key {
            Some(session_key) => Key::new(*session_key.public_key()).into_message(),
            None => {
                return Err("Missing session keypair".to_string());
            },
        };
        let nonce = match self.initiator_nonce() {
            Ok(nonce) => nonce,
            Err(msg) => {
                return Err(msg);
            },
        };
        let obox = OpenBox::new(msg, nonce);

        // The message SHALL be NaCl public-key encrypted by the client's
        // permanent key pair and the other client's permanent key pair.
        let out = obox.encrypt(&self.permanent_key, &self.initiator.permanent_key);
        Ok(HandleAction::Reply(out))
    }

    /// The nonce of the next message to the initiator.
    fn initiator_nonce(&mut self) -> (result: Result<Nonce, String>)
        ensures
            match old(self)@.to_initiator() {
                Some((after, nonce)) => {
                    &&& final(self)@ == after
                    &&& result == Ok::<Nonce, String>(nonce)
                },
                None => {
                    &&& final(self)@ == old(self)@
                    &&& result matches Err(msg) && msg@ == model::csn_exhausted()
                },
            },
            final(self).permanent_key == old(self).permanent_key,
            final(self).initiator.permanent_key == old(self).initiator.permanent_key,
    {
        let csn = match self.initiator.csn_pair.ours.increment() {
            Ok(snapshot) => snapshot,
            Err(e) => {
                return Err("Could not increment CSN: ".to_string().concat(e.text().as_str()));
            },
        };
        Ok(
            Nonce::new(
                self.initiator.cookie_pair.ours,
                self.identity.address(),
                self.initiator.identity().address(),
                csn,
            ),
        )
    }
}

/// The signaling implementation.
///
/// This enum contains all the signaling logic. Role specific logic is
/// delegated to the inner signaling type.
pub enum Signaling {
    Initiator(InitiatorSignaling),
    Responder(ResponderSignaling),
}

impl View for Signaling {
    type V = SignalingModel;

    open spec fn view(&self) -> SignalingModel {
        match self {
            Signaling::Initiator(s) => s@,
            Signaling::Responder(s) => s@,
        }
    }
}

impl From<InitiatorSignaling> for Signaling {
    fn from(val: InitiatorSignaling) -> (signaling: Self) {
        Signaling::Initiator(val)
    }
}

impl vstd::std_specs::convert::FromSpecImpl<InitiatorSignaling> for Signaling {
    open spec fn obeys_from_spec() -> bool {
        true
    }

    open spec fn from_spec(val: InitiatorSignaling) -> Self {
        Signaling::Initiator(val)
    }
}

impl From<ResponderSignaling> for Signaling {
    fn from(val: ResponderSignaling) -> (signaling: Self) {
        Signaling::Responder(val)
    }
}

impl vstd::std_specs::convert::FromSpecImpl<ResponderSignaling> for Signaling {
    open spec fn obeys_from_spec() -> bool {
        true
    }

    open spec fn from_spec(val: ResponderSignaling) -> Self {
        Signaling::Responder(val)
    }
}

impl Signaling {
    /// Create a new initiator signaling instance.
    pub fn new_initiator(permanent_key: KeyStore, auth_token: AuthToken, server: Seed) -> (
        signaling: Self)
        ensures
            signaling@ == SignalingModel::new_initiator(permanent_key, auth_token, server),
            signaling@.wf(),
            signaling@.identity_fits(),
    {
        Signaling::Initiator(InitiatorSignaling::new(permanent_key, auth_token, server))
    }

    /// Create a new responder signaling instance.
    pub fn new_responder(
        permanent_key: KeyStore,
        initiator_pubkey: PublicKey,
        auth_token: Option<AuthToken>,
        server: Seed,
        initiator: Seed,
    ) -> (signaling: Self)
        ensures
            signaling@ == SignalingModel::new_responder(
                permanent_key,
                initiator_pubkey,
                auth_token,
                server,
                initiator,
            ),
            signaling@.wf(),
            signaling@.identity_fits(),
    {
        Signaling::Responder(
            ResponderSignaling::new(permanent_key, initiator_pubkey, auth_token, server, initiator),
        )
    }

    /// Return our role, either initiator or responder.
    pub fn role(&self) -> (role: Role)
        ensures
            role == self@.role(),
    {
        match self {
            Signaling::Initiator(_) => Role::Initiator,
            Signaling::Responder(_) => Role::Responder,
        }
    }

    /// Return the signaling state.
    pub fn signaling_state(&self) -> (state: SignalingState)
        ensures
            state == self@.signaling_state,
    {
        match self {
            Signaling::Initiator(s) => s.signaling_state,
            Signaling::Responder(s) => s.signaling_state,
        }
    }

    /// Set the signaling state. It can only be changed during the handshake with the server.
    fn set_signaling_state(&mut self, state: SignalingState) -> (result: SignalingResult<()>)
        ensures
            match old(self)@.signaling_state {
                SignalingState::ServerHandshake => {
                    &&& final(self)@ == (SignalingModel { signaling_state: state, ..old(self)@ })
                    &&& result is Ok
                },
                _ => {
                    &&& final(self)@ == old(self)@
                    &&& result matches Err(e) && e@ == SignalingFault::InvalidStateTransition(
                        "foo"@,
                    )
                },
            },
    {
        match self.signaling_state() {
            SignalingState::ServerHandshake => {
                match self {
                    Signaling::Initiator(s) => {
                        s.signaling_state = state;
                    },
                    Signaling::Responder(s) => {
                        s.signaling_state = state;
                    },
                }
                Ok(())
            },
            _ => Err(SignalingError::InvalidStateTransition("foo".to_string())),
        }
    }

    /// Return our assigned client identity.
    pub fn identity(&self) -> (identity: ClientIdentity)
        ensures
            identity == self@.identity,
    {
        match self {
            Signaling::Initiator(s) => s.identity,
            Signaling::Responder(s) => s.identity,
        }
    }

    /// Set the client identity.
    pub fn set_identity(&mut self, identity: ClientIdentity)
        ensures
            final(self)@ == (SignalingModel { identity, ..old(self)@ }),
    {
        match self {
            Signaling::Initiator(s) => {
                s.identity = identity;
            },
            Signaling::Responder(s) => {
                s.identity = identity;
            },
        }
    }

    /// Set the interval of the pings that the server is asked for.
    pub fn set_ping_interval(&mut self, interval: Option<Duration>)
        ensures
            final(self)@ == (SignalingModel {
                ping_interval: requested_interval(interval),
                ..old(self)@
            }),
    {
        match self {
            Signaling::Initiator(s) => {
                s.ping_interval = interval;
            },
            Signaling::Responder(s) => {
                s.ping_interval = interval;
            },
        }
    }

    /// The ping interval that the server is asked for, in seconds. 0 stands for none.
    pub fn ping_interval(&self) -> (seconds: u64)
        ensures
            seconds == self@.ping_interval,
    {
        match self {
            Signaling::Initiator(s) => ping_seconds(&s.ping_interval),
            Signaling::Responder(s) => ping_seconds(&s.ping_interval),
        }
    }

    /// Return our permanent keypair.
    pub fn permanent_key(&self) -> (key: &KeyStore)
        ensures
            *key == self@.permanent_key,
    {
        match self {
            Signaling::Initiator(s) => &s.permanent_key,
            Signaling::Responder(s) => &s.permanent_key,
        }
    }

    /// Return our auth token.
    pub fn auth_token(&self) -> (token: Option<&AuthToken>)
        ensures
            match token {
                Some(t) => self@.auth_token == Some(*t),
                None => self@.auth_token is None,
            },
    {
        match self {
            Signaling::Initiator(s) => s.auth_token.as_ref(),
            Signaling::Responder(s) => s.auth_token.as_ref(),
        }
    }

    /// The server context.
    pub open spec fn server_context(&self) -> ServerContext {
        match self {
            Signaling::Initiator(s) => s.server,
            Signaling::Responder(s) => s.server,
        }
    }

    /// The signaling with another server context.
    pub open spec fn with_server(&self, server: ServerContext) -> Signaling {
        match self {
            Signaling::Initiator(s) => Signaling::Initiator(InitiatorSignaling { server, ..*s }),
            Signaling::Responder(s) => Signaling::Responder(ResponderSignaling { server, ..*s }),
        }
    }

    /// Return the server context.
    pub fn server(&self) -> (server: &ServerContext)
        ensures
            *server == self.server_context(),
            server@ == self@.server,
    {
        match self {
            Signaling::Initiator(s) => &s.server,
            Signaling::Responder(s) => &s.server,
        }
    }

    /// Return the mutable server context.
    pub fn server_mut(&mut self) -> (server: &mut ServerContext)
        ensures
            *server == old(self).server_context(),
            *final(self) == old(self).with_server(*final(server)),
    {
        match self {
            Signaling::Initiator(s) => &mut s.server,
            Signaling::Responder(s) => &mut s.server,
        }
    }

    /// The signaling with another context for the responder at the address.
    pub open spec fn responder_model(self, address: u8, context: ResponderContext) -> SignalingModel
        recommends
            self@.path is Initiator,
    {
        SignalingModel {
            path: PathModel::Initiator {
                responders: self@.path->responders.insert(address, context),
                responder: self@.path->responder,
            },
            ..self@
        }
    }

    /// Return the responder with the specified address (if present).
    fn responder_with_address_mut(&mut self, addr: &Address) -> (responder: Option<
        &mut ResponderContext,
    >)
        ensures
            match responder {
                Some(context) => {
                    &&& old(self)@.path is Initiator
                    &&& old(self)@.path->responders.contains_key(addr.0)
                    &&& *context == old(self)@.path->responders[addr.0]
                    &&& final(self)@ == old(self).responder_model(addr.0, *final(context))
                },
                None => {
                    &&& final(self)@ == old(self)@
                    &&& old(self)@.path is Initiator ==> !old(
                        self,
                    )@.path->responders.contains_key(addr.0)
                },
            },
    {
        match self {
            Signaling::Initiator(s) => match s.responders.entry(addr.0) {
                Entry::Occupied(entry) => Some(entry.into_mut()),
                Entry::Vacant(_) => None,
            },
            Signaling::Responder(_) => None,
        }
    }

    /// How a message from the server has to be opened at this point, or why it cannot be.
    pub fn opening(&self) -> (result: Result<Sealing, String>)
        ensures
            match self@.opening() {
                Ok(sealing) => result == Ok::<Sealing, String>(sealing),
                Err(text) => result matches Err(msg) && msg@ == text,
            },
    {
        match self.server().handshake_state() {
            // If we're in state `New`, message must be unencrypted.
            ServerHandshakeState::New => Ok(Sealing::Plain),
            // If we're already in `Failure` state, stay there.
            ServerHandshakeState::Failure(msg) => Err(msg.as_str().to_string()),
            // Otherwise, decrypt
            _ => match &self.server().permanent_key {
                Some(pubkey) => Ok(
                    Sealing::Keys { our_key: *self.permanent_key(), their_key: *pubkey },
                ),
                None => Err("Missing server permanent key".to_string()),
            },
        }
    }
}

/// Handling of messages.
impl Signaling {
    /// Whether a message with this nonce would reach us, a responder, from the initiator.
    /// Such messages cannot be handled yet.
    pub fn is_from_initiator(&self, nonce: &Nonce) -> (r: bool)
        ensures
            r == self@.from_initiator(*nonce),
    {
        let assigned = self.role() == Role::Responder && self.identity() == ClientIdentity::Unknown
            && nonce.destination().is_responder() && !matches!(
            self.server().handshake_state(),
            ServerHandshakeState::New
        );
        let addressed = match self.identity() {
            ClientIdentity::Responder(address) => nonce.destination() == Address(address),
            _ => assigned,
        };
        addressed && nonce.source().is_initiator()
    }

    /// Whether the key pair can serve as our session key: it must not be our permanent one.
    pub fn accepts_session_key(&self, session_key: &KeyStore) -> (r: bool)
        ensures
            r == (*session_key != self@.permanent_key),
    {
        *session_key != *self.permanent_key()
    }

    /// Handle an incoming message.
    ///
    /// `opened` is what opening the box in the way that `opening` told gave, and `fresh`
    /// holds random values.
    pub fn handle_message(
        &mut self,
        bbox: ByteBox,
        opened: Result<Message, String>,
        fresh: &Fresh,
    ) -> (actions: Vec<HandleAction>)
        requires
            old(self)@.wf(),
            old(self)@.signaling_state is ServerHandshake,
            !old(self)@.from_initiator(bbox.nonce),
            fresh.session_key != old(self)@.permanent_key,
        ensures
            ({
                let (after, expected) = old(self)@.on_message(
                    bbox.nonce,
                    opened_model(opened),
                    *fresh,
                );
                &&& final(self)@ == after
                &&& action_models(actions@) == expected
                &&& actions@.len() == expected.len()
            }),
            final(self)@.wf(),
    {
        proof {
            laws::on_message_keeps_wf(self@, bbox.nonce, opened_model(opened), *fresh);
        }
        self.handle_server_message(bbox, opened, fresh)
    }

    /// Determine the next server handshake state based on the incoming
    /// server-to-client message bytes and the current state.
    ///
    /// This method call may have some side effects, like updates in the peer
    /// context (cookie, CSN, etc).
    pub fn handle_server_message(
        &mut self,
        bbox: ByteBox,
        opened: Result<Message, String>,
        fresh: &Fresh,
    ) -> (actions: Vec<HandleAction>)
        requires
            !old(self)@.from_initiator(bbox.nonce),
            !old(self)@.lacks_cookie(bbox.nonce, opened_model(opened)),
            fresh.session_key != old(self)@.permanent_key,
        ensures
            ({
                let (after, expected) = old(self)@.on_message(
                    bbox.nonce,
                    opened_model(opened),
                    *fresh,
                );
                &&& final(self)@ == after
                &&& action_models(actions@) == expected
                &&& actions@.len() == expected.len()
            }),
            ({
                let from = old(self)@.server.handshake_state;
                let to = final(self)@.server.handshake_state;
                &&& to == from || to is Failure || laws::steps_forward(from, to)
                &&& actions@.len() > 0 ==> laws::steps_forward(from, to)
                &&& from is Failure ==> final(self)@.signaling_state == old(self)@.signaling_state
            }),
    {
        proof {
            let msg = laws::Incoming {
                nonce: bbox.nonce,
                opened: opened_model(opened),
                fresh: *fresh,
            };
            laws::only_steps_forward_are_answered(self@, msg);
            if self@.server.handshake_state is Failure {
                laws::failure_is_final(self@, msg);
            }
        }
        let none: Vec<HandleAction> = Vec::new();
        assert(action_models(none@) =~= Seq::<ActionModel>::empty());

        // Validate the nonce
        match self.validate_nonce(&bbox.nonce) {
            // It's valid! Carry on.
            ValidationResult::Valid => {},
            // Drop and ignore some of the messages
            ValidationResult::DropMsg(_) => {
                return none;
            },
            // Nonce is invalid, fail the signaling
            ValidationResult::Fail(reason) => {
                self.server_mut().handshake_failed(
                    "invalid nonce: ".to_string().concat(reason.as_str()),
                );
                return none;
            },
        }

        // Decode message
        let message = match self.decode_msg(opened) {
            Ok(message) => message,
            Err(msg) => {
                self.server_mut().handshake_failed(msg);
                return none;
            },
        };

        let result = match (self.server().handshake_state(), message) {
            // Valid state transitions
            (ServerHandshakeState::New, Message::ServerHello(msg)) => self.handle_server_hello(msg),
            (ServerHandshakeState::ClientInfoSent, Message::ServerAuth(msg)) => {
                self.handle_server_auth(msg, fresh)
            },
            // A failure transition is terminal and does not change
            (ServerHandshakeState::Failure(_), _) => Ok(none),
            // Any undefined state transition changes to Failure
            (s, message) => Err(
                "Invalid state transition: ".to_string().concat(s.text().as_str()).concat(
                    " <- ",
                ).concat(message.get_type()),
            ),
        };
        match result {
            Ok(actions) => actions,
            Err(msg) => {
                self.server_mut().handshake_failed(msg);
                Vec::new()
            },
        }
    }

    /// The identity that a message with this nonce leaves us with, or why it cannot assign
    /// the one that it is addressed to.
    fn identity_for(&self, nonce: &Nonce) -> (result: Result<ClientIdentity, String>)
        ensures
            if self@.assigns(*nonce) && !self@.role().may_hold(nonce.destination) {
                result matches Err(msg) && msg@ == "cannot assign address "@
                    + nonce.destination.name() + " to a client with role "@ + self@.role().name()
            } else {
                result == Ok::<ClientIdentity, String>(self@.identity_after(*nonce))
            },
    {
        let destination = nonce.destination();
        if self.identity() != ClientIdentity::Unknown || destination.is_unknown() || matches!(
            self.server().handshake_state(),
            ServerHandshakeState::New
        ) {
            return Ok(self.identity());
        }
        // The first message received with a destination address different
        // to `0x00` SHALL be accepted as the client's assigned identity.
        // However, the client MUST validate that the identity fits its
        // role – initiators SHALL ONLY accept `0x01` and responders SHALL
        // ONLY an identity from the range `0x02..0xff`. The identity MUST
        // be stored as the client's assigned identity.
        let role = self.role();
        match role {
            Role::Initiator => if destination.is_initiator() {
                return Ok(ClientIdentity::Initiator);
            },
            Role::Responder => if destination.is_responder() {
                return Ok(ClientIdentity::Responder(destination.0));
            },
        }
        Err(
            "cannot assign address ".to_string().concat(destination.text().as_str()).concat(
                " to a client with role ",
            ).concat(role.text().as_str()),
        )
    }

    /// Why a message with this nonce is discarded, if it is.
    pub fn discard_reason(&self, nonce: &Nonce) -> (reason: Option<String>)
        ensures
            match self@.verdict(*nonce) {
                Verdict::Drop(text) => reason matches Some(r) && r@ == text,
                _ => reason is None,
            },
    {
        let identity = match self.identity_for(nonce) {
            Ok(identity) => identity,
            Err(_) => {
                return None;
            },
        };
        let source = nonce.source();
        if nonce.destination() != identity.address() || listens_to(&identity, &source) {
            None
        } else {
            Some(bad_source(&identity, &source))
        }
    }

    /// Validate the nonce
    pub fn validate_nonce(&mut self, nonce: &Nonce) -> (result: ValidationResult)
        ensures
            result@ == old(self)@.verdict(*nonce),
            final(self)@ == old(self)@.after_nonce(*nonce),
            !(old(self)@.identity is Unknown) ==> final(self)@.identity == old(self)@.identity,
    {
        let source = nonce.source();

        // A client MUST check that the destination address targets its
        // assigned identity (or `0x00` during authentication).
        match self.identity_for(nonce) {
            Ok(identity) => self.set_identity(identity),
            Err(msg) => {
                return ValidationResult::Fail(msg);
            },
        }
        assert(self@ == old(self)@.identified(*nonce));
        let identity = self.identity();
        if nonce.destination() != identity.address() {
            return ValidationResult::Fail(
                "bad destination: ".to_string().concat(
                    nonce.destination().text().as_str(),
                ).concat(" (our identity is ").concat(identity.text().as_str()).concat(")"),
            );
        }

        // An initiator SHALL ONLY process messages from the server (0x00). As
        // soon as the initiator has been assigned an identity, it MAY ALSO accept
        // messages from other responders (0x02..0xff). Other messages SHALL be
        // discarded and SHOULD trigger a warning.
        //
        // A responder SHALL ONLY process messages from the server (0x00). As soon
        // as the responder has been assigned an identity, it MAY ALSO accept
        // messages from the initiator (0x01). Other messages SHALL be discarded
        // and SHOULD trigger a warning.
        if !listens_to(&identity, &source) {
            return ValidationResult::DropMsg(bad_source(&identity, &source));
        }

        // Validate CSN
        //
        // In case this is the first message received from the sender, the peer:
        //
        // * MUST check that the overflow number of the source peer is 0 and,
        // * if the peer has already sent a message to the sender, MUST check
        //   that the sender's cookie is different than its own cookie, and
        // * MUST store the combined sequence number for checks on further messages.
        // * The above number(s) SHALL be stored and updated separately for
        //   each other peer by its identity (source address in this case).
        //
        // Otherwise, the peer:
        //
        // * MUST check that the combined sequence number of the source peer
        //   has been increased by 1 and has not reset to 0, and
        // * MUST ensure that the 16 byte cookie of the sender has not changed
        let checked = if source.is_unknown() {
            validate_peer(self.server_mut(), nonce)
        } else if source.is_initiator() {
            match self {
                Signaling::Responder(s) => validate_peer(&mut s.initiator, nonce),
                Signaling::Initiator(_) => Err(unknown_responder(&source)),
            }
        } else {
            match self.responder_with_address_mut(&source) {
                Some(responder) => validate_peer(responder, nonce),
                None => Err(unknown_responder(&source)),
            }
        };
        match checked {
            Ok(()) => ValidationResult::Valid,
            Err(msg) => ValidationResult::Fail(msg),
        }
    }

    /// What opening the message gave, unless nothing can be opened in this state. Why an
    /// encrypted message could not be opened is told in one line.
    pub fn decode_msg(&self, opened: Result<Message, String>) -> (result: Result<Message, String>)
        ensures
            opened_model(result) == (match (self@.opening(), opened_model(opened)) {
                (Err(msg), _) => Err(msg),
                (Ok(_), Ok(message)) => Ok(message),
                (Ok(_), Err(msg)) => Err(self@.opening_failure(msg)),
            }),
            self@.opening() matches Ok(Sealing::Keys { .. }) ==> (result matches Err(msg)
                ==> forall|i: int| 0 <= i < msg@.len() ==> #[trigger] msg@[i] != '\n'),
    {
        proof {
            if let Err(msg) = opened_model(opened) {
                let line = one_line(msg);
                assert forall|i: int| 0 <= i < line.len() implies #[trigger] line[i] != '\n' by {
                    one_line_has_no_line_break(msg, i);
                }
            }
        }
        match self.opening() {
            Ok(Sealing::Plain) => opened,
            Ok(_) => match opened {
                Ok(message) => Ok(message),
                Err(msg) => Err(one_line_text(msg.as_str())),
            },
            Err(msg) => Err(msg),
        }
    }
}

/// The handshake with the server.
impl Signaling {
    /// The nonce of the next message to the server.
    fn server_nonce(&mut self) -> (result: Result<Nonce, String>)
        ensures
            match old(self)@.to_server() {
                Some((after, nonce)) => {
                    &&& final(self)@ == after
                    &&& result == Ok::<Nonce, String>(nonce)
                },
                None => {
                    &&& final(self)@ == old(self)@
                    &&& result matches Err(msg) && msg@ == model::csn_exhausted()
                },
            },
    {
        let csn = match self.server_mut().csn_pair.ours.increment() {
            Ok(snapshot) => snapshot,
            Err(e) => {
                return Err("Could not increment CSN: ".to_string().concat(e.text().as_str()));
            },
        };
        Ok(
            Nonce::new(
                self.server().cookie_pair.ours,
                self.identity().address(),
                self.server().identity().address(),
                csn,
            ),
        )
    }

    /// Handle an incoming `ServerHello` message.
    pub fn handle_server_hello(&mut self, msg: ServerHello) -> (result: Result<
        Vec<HandleAction>,
        FailureMsg,
    >)
        requires
            old(self)@.server.permanent_key is Some || old(
                self,
            )@.server.cookie_pair.theirs is Some,
        ensures
            final(self)@ == old(self)@.on_server_hello(msg.key).0,
            outcome_model(result) == old(self)@.on_server_hello(msg.key).1,
    {
        let mut actions: Vec<HandleAction> = Vec::with_capacity(2);
        assert(action_models(actions@) =~= Seq::<ActionModel>::empty());

        // Set the server public permanent key
        if self.server().permanent_key.is_some() {
            return Err("Server permanent key is already set".to_string());
        }
        self.server_mut().permanent_key = Some(msg.key);

        // Reply with client-hello message if we're a responder
        if self.role() == Role::Responder {
            let client_hello = ClientHello::new(*self.permanent_key().public_key()).into_message();
            let client_hello_nonce = match self.server_nonce() {
                Ok(nonce) => nonce,
                Err(msg) => {
                    return Err(msg);
                },
            };
            let reply = OpenBox::new(client_hello, client_hello_nonce);
            actions.push(HandleAction::Reply(reply.encode()));
            assert(action_models(actions@) =~= seq![actions@[0]@]);
        }
        let ghost before = actions@;

        // Send client-auth message
        let your_cookie = match self.server().cookie_pair.theirs {
            Some(cookie) => cookie,
            None => {
                assert(false);
                self.server().cookie_pair.ours
            },
        };
        let mut subprotocols: Vec<String> = Vec::new();
        subprotocols.push(SUBPROTOCOL.to_string());
        let client_auth = ClientAuth {
            your_cookie,
            subprotocols,
            ping_interval: self.ping_interval(),
            your_key: None,
        };
        assert(client_auth@.subprotocols =~= seq![model::subprotocol()]);
        let client_auth_nonce = match self.server_nonce() {
            Ok(nonce) => nonce,
            Err(msg) => {
                return Err(msg);
            },
        };
        let reply = OpenBox::new(client_auth.into_message(), client_auth_nonce);
        let out = reply.encrypt(self.permanent_key(), &msg.key);
        actions.push(HandleAction::Reply(out));
        assert(action_models(actions@) =~= action_models(before).push(
            actions@[before.len() as int]@,
        ));
        self.server_mut().set_handshake_state(ServerHandshakeState::ClientInfoSent);
        Ok(actions)
    }

    /// Handle an incoming `ServerAuth` message.
    pub fn handle_server_auth(&mut self, msg: ServerAuth, fresh: &Fresh) -> (result: Result<
        Vec<HandleAction>,
        FailureMsg,
    >)
        requires
            fresh.session_key != old(self)@.permanent_key,
        ensures
            final(self)@ == old(self)@.on_server_auth(msg@, *fresh).0,
            outcome_model(result) == old(self)@.on_server_auth(msg@, *fresh).1,
    {
        // When the client receives a 'server-auth' message, it MUST
        // have accepted and set its identity as described in the
        // Receiving a Signalling Message section.
        if self.identity() == ClientIdentity::Unknown {
            return Err("No identity assigned".to_string());
        }

        // It MUST check that the cookie provided in the your_cookie
        // field contains the cookie the client has used in its
        // previous and messages to the server.
        if msg.your_cookie != self.server().cookie_pair.ours {
            return Err(
                "cookie sent in server-auth message does not match our cookie".to_string(),
            );
        }

        // Moreover, the client MUST do some checks depending on its role
        let result = match self {
            Signaling::Initiator(s) => s.handle_server_auth(&msg, &fresh.seeds),
            Signaling::Responder(s) => s.handle_server_auth(&msg, &fresh.session_key),
        };
        let actions = match result {
            Ok(actions) => actions,
            Err(errmsg) => {
                return Err(errmsg);
            },
        };
        self.server_mut().set_handshake_state(ServerHandshakeState::Done);
        match self.set_signaling_state(SignalingState::PeerHandshake) {
            Ok(()) => Ok(actions),
            Err(e) => Err(e.text()),
        }
    }
}

/// Messages to the peer once the task has taken over.
impl Signaling {
    /// The model of what boxing a payload for the peer gave, with the signaling after it.
    pub open spec fn boxed_model(
        before: SignalingModel,
        after: SignalingModel,
        payload: PayloadModel,
        result: SignalingResult<OutBox>,
    ) -> bool {
        match before.boxed_for_peer(payload) {
            Ok((state, out)) => {
                &&& after == state
                &&& result matches Ok(o) && o@ == out
            },
            Err(fault) => {
                &&& after == before
                &&& result matches Err(e) && e@ == fault
            },
        }
    }

    /// Box a payload for the peer that the task talks to.
    fn encode_for_peer(&mut self, payload: Payload) -> (result: SignalingResult<OutBox>)
        ensures
            Self::boxed_model(old(self)@, final(self)@, payload@, result),
    {
        if self.signaling_state() != SignalingState::Task {
            return Err(SignalingError::Crash("Signaling is not in task state".to_string()));
        }
        let ghost model = payload@;
        let identity = self.identity().address();
        let result = match self {
            Signaling::Initiator(s) => {
                let our_key = s.session_key;
                let address = match s.responder {
                    Some(address) => address,
                    None => {
                        return Err(SignalingError::Crash("No peer selected".to_string()));
                    },
                };
                match s.responders.entry(address.0) {
                    Entry::Occupied(entry) => encode_with_session(
                        payload,
                        identity,
                        our_key,
                        entry.into_mut(),
                    ),
                    Entry::Vacant(_) => Err(SignalingError::Crash("No peer selected".to_string())),
                }
            },
            Signaling::Responder(s) => encode_with_session(
                payload,
                identity,
                s.session_key,
                &mut s.initiator,
            ),
        };
        proof {
            match old(self)@.boxed_for_peer(model) {
                Ok((after, _)) => assert(self@ =~= after),
                Err(_) => assert(self@ =~= old(self)@),
            }
        }
        result
    }

    /// Encode a message of the task.
    pub fn encode_task_message(&mut self, val: rmpv::Value) -> (result: SignalingResult<OutBox>)
        ensures
            Self::boxed_model(old(self)@, final(self)@, PayloadModel::Task(val), result),
    {
        self.encode_for_peer(Payload::Task(val))
    }

    /// Encode a close message.
    pub fn encode_close_message(&mut self, reason: CloseCode) -> (result: SignalingResult<OutBox>)
        ensures
            Self::boxed_model(
                old(self)@,
                final(self)@,
                PayloadModel::Message(MessageModel::Close(reason.number())),
                result,
            ),
    {
        self.encode_for_peer(Payload::Message(Close::new(reason.as_number()).into_message()))
    }

    /// Return the inner `InitiatorSignaling` instance.
    pub fn as_initiator(&self) -> (s: &InitiatorSignaling)
        requires
            self is Initiator,
        ensures
            *self == Signaling::Initiator(*s),
    {
        match self {
            Signaling::Initiator(s) => s,
            Signaling::Responder(_) => vstd::pervasive::unreached(),
        }
    }

    /// Return the inner `ResponderSignaling` instance.
    pub fn as_responder(&self) -> (s: &ResponderSignaling)
        requires
            self is Responder,
        ensures
            *self == Signaling::Responder(*s),
    {
        match self {
            Signaling::Responder(s) => s,
            Signaling::Initiator(_) => vstd::pervasive::unreached(),
        }
    }
}

/// Box a payload for a peer, encrypted with the session keys.
fn encode_with_session<P: PeerContext>(
    payload: Payload,
    source: Address,
    session_key: Option<KeyStore>,
    peer: &mut P,
) -> (result: SignalingResult<OutBox>)
    ensures
        match (session_key, old(peer).peer().session_key, old(peer).peer().csn_pair.ours.next()) {
            (None, _, _) => {
                &&& *final(peer) == *old(peer)
                &&& result matches Err(e) && e@ == SignalingFault::Crash(
                    "Missing session keypair"@,
                )
            },
            (Some(_), None, _) => {
                &&& *final(peer) == *old(peer)
                &&& result matches Err(e) && e@ == SignalingFault::Crash(
                    "Missing session key of the peer"@,
                )
            },
            (Some(_), Some(_), None) => {
                &&& *final(peer) == old(peer).with_csn_pair(old(peer).peer().csn_pair)
                &&& result matches Err(e) && e@ == SignalingFault::CsnOverflow
            },
            (Some(our_key), Some(their_key), Some(next)) => {
                &&& *final(peer) == old(peer).with_csn_pair(
                    CombinedSequencePair { ours: next, ..old(peer).peer().csn_pair },
                )
                &&& result matches Ok(out) && out@ == (OutBoxModel {
                    payload: payload@,
                    nonce: Nonce {
                        cookie: old(peer).peer().cookie_pair.ours,
                        source,
                        destination: old(peer).peer().identity.holds(),
                        csn: next.snapshot(),
                    },
                    sealing: Sealing::Keys { our_key, their_key },
                })
            },
        },
{
    let our_key = match session_key {
        Some(key) => key,
        None => {
            return Err(SignalingError::Crash("Missing session keypair".to_string()));
        },
    };
    let their_key = match peer.session_key() {
        Some(key) => *key,
        None => {
            return Err(SignalingError::Crash("Missing session key of the peer".to_string()));
        },
    };
    let csn = match peer.csn_pair_mut().ours.increment() {
        Ok(snapshot) => snapshot,
        Err(_) => {
            return Err(SignalingError::CsnOverflow);
        },
    };
    let nonce = Nonce::new(peer.cookie_pair().ours, source, peer.identity().address(), csn);
    let obox = OpenBox { payload, nonce };
    Ok(obox.encrypt(&our_key, &their_key))
}

} // verus!
