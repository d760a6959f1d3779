//! A client for SaltyRTC: it does the handshake with the signaling server and carries the
//! messages of a task.
//!
//! The library decides. It does no I/O, draws no random numbers and holds no cipher: the
//! embedding application connects to the server, receives and sends, draws keys, cookies and
//! sequence numbers, and opens and seals boxes in the way the library tells it.

use std::time::Duration;

use vstd::prelude::*;
use vstd::string::*;

use crate::boxes::{ByteBox, OutBox, PayloadModel, Sealing};
use crate::crypto::{AuthToken, KeyPair, KeyStore, PublicKey};
use crate::errors::{BuilderError, SaltyError, SaltyFault, SaltyResult};
use crate::errors::{SignalingError, SignalingFault, SignalingResult};
use crate::protocol::cookie::Seed;
use crate::protocol::messages::{Message, MessageModel};
use crate::protocol::model::{Fresh, SignalingModel, Verdict};
use crate::protocol::nonce::Nonce;
use crate::protocol::state::{ServerHandshakeState, ServerStateModel, SignalingState};
use crate::protocol::types::{action_models, HandleAction};
use crate::protocol::{opened_model, requested_interval};
use crate::protocol::{InitiatorSignaling, ResponderSignaling, Signaling};
use crate::task::Tasks;
use crate::text::decimal_text;

pub use crate::protocol::types::Role;

pub mod boxes;
pub mod connection;
pub mod crypto;
pub mod errors;
pub mod host;
pub mod laws;
pub mod protocol;
pub mod task;
pub mod text;

verus! {

/// The builder used to create a [`SaltyClient`] instance.
///
/// `T` is the type of the tasks.
pub struct SaltyClientBuilder<T> {
    pub permanent_key: KeyPair,
    pub tasks: Vec<T>,
    pub ping_interval: Option<Duration>,
}

impl<T> SaltyClientBuilder<T> {
    /// Instantiate a new builder.
    pub fn new(permanent_key: KeyPair) -> (builder: Self)
        ensures
            builder.permanent_key == permanent_key,
            builder.tasks@ == Seq::<T>::empty(),
            builder.ping_interval is None,
    {
        SaltyClientBuilder { permanent_key, tasks: Vec::new(), ping_interval: None }
    }

    /// Register a task that should be accepted by the client.
    ///
    /// When calling this method multiple times, tasks added first
    /// have the highest priority during task negotation.
    pub fn add_task(self, task: T) -> (builder: Self)
        ensures
            builder.permanent_key == self.permanent_key,
            builder.tasks@ == self.tasks@.push(task),
            builder.ping_interval == self.ping_interval,
    {
        let mut tasks = self.tasks;
        tasks.push(task);
        SaltyClientBuilder {
            permanent_key: self.permanent_key,
            tasks,
            ping_interval: self.ping_interval,
        }
    }

    /// Request that the server sends a WebSocket ping message at the specified interval.
    ///
    /// Set the `interval` argument to `None` or to a zero duration to disable intervals.
    ///
    /// Note: Fractions of seconds are ignored, so if you set the duration to 13.37s,
    /// then the ping interval 13s will be requested.
    ///
    /// By default, ping messages are disabled.
    pub fn with_ping_interval(self, interval: Option<Duration>) -> (builder: Self)
        ensures
            builder.permanent_key == self.permanent_key,
            builder.tasks@ == self.tasks@,
            builder.ping_interval == interval,
    {
        SaltyClientBuilder {
            permanent_key: self.permanent_key,
            tasks: self.tasks,
            ping_interval: interval,
        }
    }

    /// Create a new SaltyRTC initiator.
    ///
    /// The token and the values for the server context have to be random.
    pub fn initiator(self, auth_token: AuthToken, server: Seed) -> (result: Result<
        SaltyClient<T>,
        BuilderError,
    >)
        ensures
            match result {
                Ok(client) => {
                    &&& self.tasks@.len() > 0
                    &&& client.wf()
                    &&& client@ == (ClientModel {
                        signaling: SignalingModel {
                            ping_interval: requested_interval(self.ping_interval),
                            ..SignalingModel::new_initiator(self.permanent_key, auth_token, server)
                        },
                        tasks: self.tasks@,
                        task: None,
                    })
                },
                Err(e) => self.tasks@.len() == 0 && e == BuilderError::MissingTask,
            },
    {
        let tasks = match Tasks::from_vec(self.tasks) {
            Ok(tasks) => tasks,
            Err(_) => {
                return Err(BuilderError::MissingTask);
            },
        };
        let mut signaling = Signaling::from(
            InitiatorSignaling::new(self.permanent_key, auth_token, server),
        );
        signaling.set_ping_interval(self.ping_interval);
        Ok(SaltyClient { signaling, tasks, task: None })
    }

    /// Create a new SaltyRTC responder.
    ///
    /// The values for the contexts of the server and of the initiator have to be random.
    pub fn responder(
        self,
        initiator_pubkey: PublicKey,
        auth_token: Option<AuthToken>,
        server: Seed,
        initiator: Seed,
    ) -> (result: Result<SaltyClient<T>, BuilderError>)
        ensures
            match result {
                Ok(client) => {
                    &&& self.tasks@.len() > 0
                    &&& client.wf()
                    &&& client@ == (ClientModel {
                        signaling: SignalingModel {
                            ping_interval: requested_interval(self.ping_interval),
                            ..SignalingModel::new_responder(
                                self.permanent_key,
                                initiator_pubkey,
                                auth_token,
                                server,
                                initiator,
                            )
                        },
                        tasks: self.tasks@,
                        task: None,
                    })
                },
                Err(e) => self.tasks@.len() == 0 && e == BuilderError::MissingTask,
            },
    {
        let tasks = match Tasks::from_vec(self.tasks) {
            Ok(tasks) => tasks,
            Err(_) => {
                return Err(BuilderError::MissingTask);
            },
        };
        let mut signaling = Signaling::from(
            ResponderSignaling::new(
                self.permanent_key,
                initiator_pubkey,
                auth_token,
                server,
                initiator,
            ),
        );
        signaling.set_ping_interval(self.ping_interval);
        Ok(SaltyClient { signaling, tasks, task: None })
    }
}

/// The SaltyRTC Client instance.
///
/// To create an instance of this struct, use the [`SaltyClientBuilder`].
pub struct SaltyClient<T> {
    /// The signaling of an initiator or of a responder.
    pub signaling: Signaling,
    /// The tasks that the client offers.
    pub tasks: Tasks<T>,
    /// The selected task.
    pub task: Option<T>,
}

/// The model of a [`SaltyClient`].
#[verifier::ext_equal]
pub struct ClientModel<T> {
    pub signaling: SignalingModel,
    pub tasks: Seq<T>,
    pub task: Option<T>,
}

impl<T> View for SaltyClient<T> {
    type V = ClientModel<T>;

    open spec fn view(&self) -> ClientModel<T> {
        ClientModel { signaling: self.signaling@, tasks: self.tasks@, task: self.task }
    }
}

impl<T> SaltyClient<T> {
    /// There is a task, and no responder is known before the server has named them.
    pub open spec fn wf(&self) -> bool {
        self.tasks.wf() && self.signaling@.wf()
    }

    /// Return the assigned role.
    pub fn role(&self) -> (role: Role)
        ensures
            role == self@.signaling.role(),
    {
        self.signaling.role()
    }

    /// Return a reference to the auth token.
    pub fn auth_token(&self) -> (token: Option<&AuthToken>)
        ensures
            match token {
                Some(t) => self@.signaling.auth_token == Some(*t),
                None => self@.signaling.auth_token is None,
            },
    {
        self.signaling.auth_token()
    }

    /// Return a reference to the selected task.
    pub fn task(&self) -> (task: Option<&T>)
        ensures
            match task {
                Some(t) => self@.task == Some(*t),
                None => self@.task is None,
            },
    {
        self.task.as_ref()
    }

    /// Return a reference to the selected task, without which nothing can be handed over.
    pub fn selected_task(&self) -> (result: SaltyResult<&T>)
        ensures
            match self@.task {
                Some(t) => result matches Ok(r) && *r == t,
                None => result matches Err(e) && e@ == SaltyFault::Crash("Task not set"@),
            },
    {
        match &self.task {
            Some(task) => Ok(task),
            None => Err(SaltyError::Crash("Task not set".to_string())),
        }
    }

    /// Whether a message with this nonce can be handled. That is so during the handshake with
    /// the server, unless the message reaches a responder from the initiator.
    pub fn handles(&self, nonce: &Nonce) -> (r: bool)
        ensures
            r == (self@.signaling.signaling_state is ServerHandshake
                && !self@.signaling.from_initiator(*nonce)),
    {
        self.signaling.signaling_state() == SignalingState::ServerHandshake
            && !self.signaling.is_from_initiator(nonce)
    }

    /// Why a message with this nonce is discarded, if it is.
    pub fn discard_reason(&self, nonce: &Nonce) -> (reason: Option<String>)
        ensures
            match self@.signaling.verdict(*nonce) {
                Verdict::Drop(text) => reason matches Some(r) && r@ == text,
                _ => reason is None,
            },
    {
        self.signaling.discard_reason(nonce)
    }

    /// How the next message has to be opened, or why it cannot be.
    pub fn opening(&self) -> (result: Result<Sealing, String>)
        ensures
            match self@.signaling.opening() {
                Ok(sealing) => result == Ok::<Sealing, String>(sealing),
                Err(text) => result matches Err(msg) && msg@ == text,
            },
    {
        self.signaling.opening()
    }

    /// Whether the key pair can serve as our session key.
    pub fn accepts_session_key(&self, session_key: &KeyStore) -> (r: bool)
        ensures
            r == (*session_key != self@.signaling.permanent_key),
    {
        self.signaling.accepts_session_key(session_key)
    }

    /// Handle an incoming message.
    ///
    /// If the handshake has failed, the reason is returned as an error.
    pub fn handle_message(
        &mut self,
        bbox: ByteBox,
        opened: Result<Message, String>,
        fresh: &Fresh,
    ) -> (result: SignalingResult<Vec<HandleAction>>)
        requires
            old(self).wf(),
            old(self)@.signaling.signaling_state is ServerHandshake,
            !old(self)@.signaling.from_initiator(bbox.nonce),
            fresh.session_key != old(self)@.signaling.permanent_key,
        ensures
            final(self).wf(),
            ({
                let (signaling, expected) = old(self)@.signaling.on_message(
                    bbox.nonce,
                    opened_model(opened),
                    *fresh,
                );
                &&& final(self)@ == (ClientModel { signaling, ..old(self)@ })
                &&& match signaling.server.handshake_state {
                    ServerStateModel::Failure(msg) => result matches Err(e) && e@
                        == SignalingFault::Protocol(msg),
                    _ => {
                        &&& result matches Ok(actions)
                        &&& action_models(actions@) == expected
                        &&& actions@.len() == expected.len()
                    },
                }
            }),
    {
        let actions = self.signaling.handle_message(bbox, opened, fresh);
        match self.signaling.server().handshake_state() {
            ServerHandshakeState::Failure(msg) => Err(
                SignalingError::Protocol(msg.as_str().to_string()),
            ),
            _ => Ok(actions),
        }
    }

    /// The model of what boxing a payload for the peer gave, with the client after it.
    pub open spec fn boxed_model(
        before: ClientModel<T>,
        after: ClientModel<T>,
        payload: PayloadModel,
        result: SaltyResult<OutBox>,
    ) -> bool {
        match before.signaling.boxed_for_peer(payload) {
            Ok((signaling, out)) => {
                &&& after == (ClientModel { signaling, ..before })
                &&& result matches Ok(o) && o@ == out
            },
            Err(fault) => {
                &&& after == before
                &&& result matches Err(e) && e@ == fault.reported()
            },
        }
    }

    /// Have a task message encrypted.
    pub fn encrypt_task_message(&mut self, val: rmpv::Value) -> (result: SaltyResult<OutBox>)
        ensures
            Self::boxed_model(old(self)@, final(self)@, PayloadModel::Task(val), result),
            old(self).wf() ==> final(self).wf(),
    {
        match self.signaling.encode_task_message(val) {
            Ok(out) => Ok(out),
            Err(e) => Err(e.into_salty()),
        }
    }

    /// Have a close message for the peer encrypted.
    pub fn encrypt_close_message(&mut self, reason: CloseCode) -> (result: SaltyResult<OutBox>)
        ensures
            Self::boxed_model(
                old(self)@,
                final(self)@,
                PayloadModel::Message(MessageModel::Close(reason.number())),
                result,
            ),
            old(self).wf() ==> final(self).wf(),
    {
        match self.signaling.encode_close_message(reason) {
            Ok(out) => Ok(out),
            Err(e) => Err(e.into_salty()),
        }
    }
}

/// Close codes used by SaltyRTC.
#[derive(Debug, Copy, Clone, PartialEq, Eq, Structural)]
pub enum CloseCode {
    WsGoingAway,
    WsProtocolError,
    PathFull,
    ProtocolError,
    InternalError,
    Handover,
    DroppedByInitiator,
    InitiatorCouldNotDecrypt,
    NoSharedTask,
    InvalidKey,
}

impl CloseCode {
    /// The number of the close code.
    pub open spec fn number(self) -> u16 {
        match self {
            CloseCode::WsGoingAway => 1001,
            CloseCode::WsProtocolError => 1002,
            CloseCode::PathFull => 3000,
            CloseCode::ProtocolError => 3001,
            CloseCode::InternalError => 3002,
            CloseCode::Handover => 3003,
            CloseCode::DroppedByInitiator => 3004,
            CloseCode::InitiatorCouldNotDecrypt => 3005,
            CloseCode::NoSharedTask => 3006,
            CloseCode::InvalidKey => 3007,
        }
    }

    /// The name of the close code.
    pub open spec fn name(self) -> Seq<char> {
        match self {
            CloseCode::WsGoingAway => "WsGoingAway"@,
            CloseCode::WsProtocolError => "WsProtocolError"@,
            CloseCode::PathFull => "PathFull"@,
            CloseCode::ProtocolError => "ProtocolError"@,
            CloseCode::InternalError => "InternalError"@,
            CloseCode::Handover => "Handover"@,
            CloseCode::DroppedByInitiator => "DroppedByInitiator"@,
            CloseCode::InitiatorCouldNotDecrypt => "InitiatorCouldNotDecrypt"@,
            CloseCode::NoSharedTask => "NoSharedTask"@,
            CloseCode::InvalidKey => "InvalidKey"@,
        }
    }

    /// How the close code is shown: its name, and its number in brackets.
    pub open spec fn shown(self) -> Seq<char> {
        self.name() + " ("@ + crate::text::decimal(self.number() as nat) + ")"@
    }

    /// The number of the close code.
    pub fn as_number(&self) -> (number: u16)
        ensures
            number == self.number(),
    {
        match self {
            CloseCode::WsGoingAway => 1001,
            CloseCode::WsProtocolError => 1002,
            CloseCode::PathFull => 3000,
            CloseCode::ProtocolError => 3001,
            CloseCode::InternalError => 3002,
            CloseCode::Handover => 3003,
            CloseCode::DroppedByInitiator => 3004,
            CloseCode::InitiatorCouldNotDecrypt => 3005,
            CloseCode::NoSharedTask => 3006,
            CloseCode::InvalidKey => 3007,
        }
    }

    /// The close code with the number, if there is one.
    pub fn from_number(code: u16) -> (result: Option<CloseCode>)
        ensures
            match result {
                Some(close_code) => close_code.number() == code,
                None => forall|close_code: CloseCode| close_code.number() != code,
            },
    {
        match code {
            1001 => Some(CloseCode::WsGoingAway),
            1002 => Some(CloseCode::WsProtocolError),
            3000 => Some(CloseCode::PathFull),
            3001 => Some(CloseCode::ProtocolError),
            3002 => Some(CloseCode::InternalError),
            3003 => Some(CloseCode::Handover),
            3004 => Some(CloseCode::DroppedByInitiator),
            3005 => Some(CloseCode::InitiatorCouldNotDecrypt),
            3006 => Some(CloseCode::NoSharedTask),
            3007 => Some(CloseCode::InvalidKey),
            _ => None,
        }
    }

    /// How the close code is shown.
    pub fn text(&self) -> (text: String)
        ensures
            text@ == self.shown(),
    {
        let name = match self {
            CloseCode::WsGoingAway => "WsGoingAway",
            CloseCode::WsProtocolError => "WsProtocolError",
            CloseCode::PathFull => "PathFull",
            CloseCode::ProtocolError => "ProtocolError",
            CloseCode::InternalError => "InternalError",
            CloseCode::Handover => "Handover",
            CloseCode::DroppedByInitiator => "DroppedByInitiator",
            CloseCode::InitiatorCouldNotDecrypt => "InitiatorCouldNotDecrypt",
            CloseCode::NoSharedTask => "NoSharedTask",
            CloseCode::InvalidKey => "InvalidKey",
        };
        name.to_string().concat(" (").concat(decimal_text(self.as_number()).as_str()).concat(")")
    }
}

/// Different close codes have different numbers, so the number of a close code leads back to it.
pub proof fn close_code_numbers_differ(a: CloseCode, b: CloseCode)
    requires
        a.number() == b.number(),
    ensures
        a == b,
{
}

} // verus!
