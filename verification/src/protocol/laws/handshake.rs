//! Laws of the handshake with the server: what is sent in answer to what.

use vstd::prelude::*;

use super::validation::address_of;
use super::values::starts_with;
use super::Incoming;
use crate::boxes::{PayloadModel, Sealing};
use crate::crypto::{KeyStore, PublicKey};
use crate::protocol::context::{InitiatorContext, ResponderContext, ServerModel};
use crate::protocol::cookie::Cookie;
use crate::protocol::csn::{next_counts_up, CombinedSequencePair};
use crate::protocol::messages::{ClientAuthModel, MessageModel, ServerAuthModel};
use crate::protocol::model::{csn_exhausted, Fresh, PathModel, SignalingModel, Verdict};
use crate::protocol::nonce::Nonce;
use crate::protocol::state::{InitiatorHandshakeState, ServerStateModel, SignalingState};
use crate::protocol::types::{ActionModel, Address};
use crate::text::one_line;

verus! {

/// The largest number that a message can have.
pub open spec fn last_number() -> nat {
    0xffff_ffff_ffff
}

/// The text that tells that all numbers are used up.
pub open spec fn numbers_used_up() -> Seq<char> {
    "Could not increment CSN: "@ + "overflow number has reached its maximum"@
}

/// Whether the nonce has these parts.
pub open spec fn is_nonce(
    nonce: Nonce,
    cookie: Cookie,
    source: u8,
    destination: u8,
    number: nat,
) -> bool {
    &&& nonce.cookie == cookie
    &&& nonce.source.0 == source
    &&& nonce.destination.0 == destination
    &&& nonce.csn.overflow as int * 0x1_0000_0000 + nonce.csn.sequence as int == number
}

/// Whether the action sends the message with a nonce of these parts, sealed in this way.
pub open spec fn sends(
    action: ActionModel,
    msg: MessageModel,
    cookie: Cookie,
    source: u8,
    destination: u8,
    number: nat,
    sealing: Sealing,
) -> bool {
    &&& action matches ActionModel::Reply(out)
    &&& out.payload == PayloadModel::Message(msg)
    &&& out.sealing == sealing
    &&& is_nonce(out.nonce, cookie, source, destination, number)
}

/// Whether only the state of the handshake and our number for the server differ, besides the
/// server's key.
pub open spec fn server_moved_on(
    s: SignalingModel,
    t: SignalingModel,
    state: ServerStateModel,
    key: Option<PublicKey>,
    number: nat,
) -> bool {
    &&& t == SignalingModel {
        server: ServerModel {
            handshake_state: state,
            permanent_key: key,
            csn_pair: CombinedSequencePair {
                ours: t.server.csn_pair.ours,
                ..s.server.csn_pair
            },
            ..s.server
        },
        ..s
    }
    &&& t.server.csn_pair.ours.value() == number
}

/// The first message from the server is opened without a key. Every later one is decrypted with
/// our permanent key and the key that the server told, whatever our role. After a failure there
/// is nothing to be opened.
pub proof fn messages_are_opened_with_the_servers_key(s: SignalingModel)
    ensures
        s.server.handshake_state is New ==> s.opening() == Ok::<Sealing, Seq<char>>(Sealing::Plain),
        s.server.handshake_state matches ServerStateModel::Failure(msg) ==> s.opening() == Err::<
            Sealing,
            Seq<char>,
        >(msg),
        s.server.handshake_state is ClientInfoSent || s.server.handshake_state is Done ==> (
        match s.server.permanent_key {
            Some(key) => s.opening() == Ok::<Sealing, Seq<char>>(
                Sealing::Keys { our_key: s.permanent_key, their_key: key },
            ),
            None => s.opening() == Err::<Sealing, Seq<char>>("Missing server permanent key"@),
        }),
{
}

/// Once a server-hello was answered, messages are decrypted with the key that it told.
pub proof fn hello_tells_the_key_to_open_with(s: SignalingModel, key: PublicKey)
    requires
        s.on_server_hello(key).1 is Ok,
    ensures
        s.on_server_hello(key).0.opening() == Ok::<Sealing, Seq<char>>(
            Sealing::Keys { our_key: s.permanent_key, their_key: key },
        ),
{
}

/// Why a message could not be opened is told as it is for the first one, and in one line for
/// those that are encrypted.
pub proof fn decryption_errors_take_one_line(s: SignalingModel, msg: Seq<char>)
    ensures
        s.server.handshake_state is New ==> s.opening_failure(msg) == msg,
        !(s.server.handshake_state is New) ==> s.opening_failure(msg) == one_line(msg),
{
}

/// A failure changes nothing but the state of the handshake with the server.
pub proof fn failure_is_only_a_state(s: SignalingModel, msg: Seq<char>)
    ensures
        s.failed(msg).server.handshake_state == ServerStateModel::Failure(msg),
        s.failed(msg) == (SignalingModel {
            server: ServerModel {
                handshake_state: s.failed(msg).server.handshake_state,
                ..s.server
            },
            ..s
        }),
        csn_exhausted() == numbers_used_up(),
{
}

/// Our next message to the server has our cookie for the server, our identity as its source, and
/// the next number, which is then used up. Nothing else changes.
pub proof fn next_message_to_server_is_numbered(s: SignalingModel)
    ensures
        s.to_server() is None <==> s.server.csn_pair.ours.value() == last_number(),
        s.to_server() matches Some((t, nonce)) ==> {
            let number = s.server.csn_pair.ours.value() + 1;
            &&& is_nonce(nonce, s.server.cookie_pair.ours, address_of(s.identity), 0, number)
            &&& server_moved_on(
                s,
                t,
                s.server.handshake_state,
                s.server.permanent_key,
                number,
            )
        },
{
    next_counts_up(s.server.csn_pair.ours);
}

/// Whether only what is known of the initiator differs, and of that only our number and the
/// state of the handshake with it.
pub open spec fn initiator_moved_on(
    s: SignalingModel,
    t: SignalingModel,
    state: InitiatorHandshakeState,
    number: nat,
) -> bool {
    &&& t == SignalingModel {
        path: PathModel::Responder {
            initiator: InitiatorContext {
                handshake_state: state,
                csn_pair: CombinedSequencePair {
                    ours: t.path->initiator.csn_pair.ours,
                    ..s.path->initiator.csn_pair
                },
                ..s.path->initiator
            },
        },
        ..s
    }
    &&& t.path->initiator.csn_pair.ours.value() == number
}

/// A responder's next message to the initiator has its cookie for the initiator, its identity as
/// its source, and the next number, which is then used up. Nothing else changes.
pub proof fn next_message_to_initiator_is_numbered(s: SignalingModel)
    requires
        s.path is Responder,
    ensures
        s.to_initiator() is None <==> s.path->initiator.csn_pair.ours.value() == last_number(),
        s.to_initiator() matches Some((t, nonce)) ==> {
            let number = s.path->initiator.csn_pair.ours.value() + 1;
            &&& is_nonce(
                nonce,
                s.path->initiator.cookie_pair.ours,
                address_of(s.identity),
                1,
                number,
            )
            &&& initiator_moved_on(s, t, s.path->initiator.handshake_state, number)
        },
{
    next_counts_up(s.path->initiator.csn_pair.ours);
}

/// The answer to a server-hello. A responder tells its permanent key in the clear, and then
/// everyone authenticates: with the server's cookie, the one subprotocol and the ping interval,
/// encrypted for the key that was told. A second key is refused, and without enough numbers
/// nothing is sent.
pub proof fn hello_is_answered_in_full(s: SignalingModel, key: PublicKey)
    ensures
        ({
            let (t, result) = s.on_server_hello(key);
            let number = s.server.csn_pair.ours.value();
            let boxes: nat = if s.path is Responder {
                2
            } else {
                1
            };
            let ours = s.server.cookie_pair.ours;
            let source = address_of(s.identity);
            if s.server.permanent_key is Some {
                &&& t == s
                &&& result == Err::<Seq<ActionModel>, Seq<char>>(
                    "Server permanent key is already set"@,
                )
            } else if number + boxes > last_number() {
                &&& result == Err::<Seq<ActionModel>, Seq<char>>(numbers_used_up())
                &&& server_moved_on(s, t, s.server.handshake_state, Some(key), last_number())
            } else {
                &&& result matches Ok(actions)
                &&& actions.len() == boxes
                &&& s.path is Responder ==> sends(
                    actions[0],
                    MessageModel::ClientHello(s.permanent_key.public_key),
                    ours,
                    source,
                    0,
                    number + 1,
                    Sealing::Plain,
                )
                &&& sends(
                    actions[boxes - 1],
                    MessageModel::ClientAuth(
                        ClientAuthModel {
                            your_cookie: s.server.cookie_pair.theirs.unwrap(),
                            subprotocols: seq!["v1.saltyrtc.org"@],
                            ping_interval: s.ping_interval,
                            your_key: None,
                        },
                    ),
                    ours,
                    source,
                    0,
                    number + boxes,
                    Sealing::Keys { our_key: s.permanent_key, their_key: key },
                )
                &&& server_moved_on(
                    s,
                    t,
                    ServerStateModel::ClientInfoSent,
                    Some(key),
                    number + boxes,
                )
            }
        }),
{
    next_counts_up(s.server.csn_pair.ours);
    let keyed = SignalingModel {
        server: ServerModel { permanent_key: Some(key), ..s.server },
        ..s
    };
    if let Some((greeted, _)) = keyed.to_server() {
        next_counts_up(greeted.server.csn_pair.ours);
    }
}

/// What is wrong with the server's authentication for everyone: there must be an identity, and
/// the cookie must be ours. Then nothing changes.
pub proof fn auth_needs_identity_and_cookie(s: SignalingModel, auth: ServerAuthModel, fresh: Fresh)
    ensures
        ({
            let (t, result) = s.on_server_auth(auth, fresh);
            &&& s.identity is Unknown ==> t == s && result == Err::<Seq<ActionModel>, Seq<char>>(
                "No identity assigned"@,
            )
            &&& !(s.identity is Unknown) && auth.your_cookie != s.server.cookie_pair.ours ==> t == s
                && result == Err::<Seq<ActionModel>, Seq<char>>(
                "cookie sent in server-auth message does not match our cookie"@,
            )
        }),
{
}

/// Whether the addresses are those of responders.
pub open spec fn all_responders(addresses: Seq<Address>) -> bool {
    forall|i: int| 0 <= i < addresses.len() ==> (#[trigger] addresses[i]).0 >= 2
}

/// Whether no address is repeated.
pub open spec fn none_repeated(addresses: Seq<Address>) -> bool {
    forall|i: int, j: int|
        0 <= i < j < addresses.len() ==> (#[trigger] addresses[i]).0 != (#[trigger] addresses[j]).0
}

/// What an initiator makes of the server's authentication: it must hold a list of responders,
/// each of them once, and not tell of an initiator. The listed ones are then known as new
/// responders, besides those that were known, and there is nothing to send.
pub proof fn initiator_takes_up_responders(s: SignalingModel, auth: ServerAuthModel, fresh: Fresh)
    requires
        s.path is Initiator,
        !(s.identity is Unknown),
        auth.your_cookie == s.server.cookie_pair.ours,
    ensures
        ({
            let (t, result) = s.on_server_auth(auth, fresh);
            let refused = |text: Seq<char>|
                t == s && result == Err::<Seq<ActionModel>, Seq<char>>(text);
            if auth.initiator_connected is Some {
                refused(
                    "we're the initiator, but the `initiator_connected` field in the server-auth message is set"@,
                )
            } else if auth.responders is None {
                refused("`responders` field in server-auth message not set"@)
            } else if !all_responders(auth.responders.unwrap()) {
                refused("`responders` field in server-auth message may not contain addresses <0x02"@)
            } else if !none_repeated(auth.responders.unwrap()) {
                refused("`responders` field in server-auth message may not contain duplicates"@)
            } else {
                let listed = auth.responders.unwrap();
                &&& result == if s.signaling_state is ServerHandshake {
                    Ok::<Seq<ActionModel>, Seq<char>>(Seq::<ActionModel>::empty())
                } else {
                    Err::<Seq<ActionModel>, Seq<char>>("invalid state transition: "@ + "foo"@)
                }
                &&& t.path is Initiator
                &&& t.path->responder == s.path->responder
                &&& is_done(s, t)
                &&& forall|a: u8|
                    {
                        &&& #[trigger] t.path->responders.contains_key(a)
                            <==> s.path->responders.contains_key(a) || listed.contains(Address(a))
                        &&& listed.contains(Address(a)) ==> is_new_responder(
                            t.path->responders[a],
                            a,
                            fresh,
                        )
                        &&& s.path->responders.contains_key(a) && !listed.contains(Address(a))
                            ==> t.path->responders[a] == s.path->responders[a]
                    }
            }
        }),
{
    if let Some(listed) = auth.responders {
        assert(listed.no_duplicates() <==> none_repeated(listed)) by {
            if none_repeated(listed) {
                assert forall|i: int, j: int|
                    0 <= i < listed.len() && 0 <= j < listed.len() && i != j implies listed[i]
                    != listed[j] by {
                    if i < j {
                        assert(listed[i].0 != listed[j].0);
                    } else {
                        assert(listed[j].0 != listed[i].0);
                    }
                }
            }
            if listed.no_duplicates() {
                assert forall|i: int, j: int|
                    0 <= i < j < listed.len() implies (#[trigger] listed[i]).0 != (
                #[trigger] listed[j]).0 by {
                    assert(listed[i] != listed[j]);
                }
            }
        }
    }
}

/// Whether nothing is known of the responder but its address.
pub open spec fn is_new_responder(context: ResponderContext, address: u8, fresh: Fresh) -> bool {
    &&& context.address.0 == address
    &&& context.permanent_key is None
    &&& context.session_key is None
    &&& starts_with(context.csn_pair, context.cookie_pair, fresh.seeds@[address as int])
}

/// Whether the handshake with the server is done, the one with the peer has begun unless a
/// later phase had, and nothing else has changed but the other clients and our session key.
pub open spec fn is_done(s: SignalingModel, t: SignalingModel) -> bool {
    t == SignalingModel {
        server: ServerModel { handshake_state: ServerStateModel::Done, ..s.server },
        signaling_state: if s.signaling_state is ServerHandshake {
            SignalingState::PeerHandshake
        } else {
            s.signaling_state
        },
        session_key: t.session_key,
        path: t.path,
        ..s
    } && (s.path is Initiator ==> t.session_key == s.session_key)
}

/// What a responder makes of the server's authentication as long as no initiator is there.
pub proof fn responder_waits_for_initiator(s: SignalingModel, auth: ServerAuthModel, fresh: Fresh)
    requires
        s.path is Responder,
        !(s.identity is Unknown),
        auth.your_cookie == s.server.cookie_pair.ours,
        auth.responders is Some || auth.initiator_connected != Some(true),
    ensures
        ({
            let (t, result) = s.on_server_auth(auth, fresh);
            if auth.responders is Some {
                &&& t == s
                &&& result == Err::<Seq<ActionModel>, Seq<char>>(
                    "we're a responder, but the `responders` field in the server-auth message is set"@,
                )
            } else if auth.initiator_connected is None {
                &&& t == s
                &&& result == Err::<Seq<ActionModel>, Seq<char>>(
                    "we're a responder, but the `initiator_connected` field in the server-auth message is not set"@,
                )
            } else {
                &&& is_done(s, t)
                &&& t.path == s.path
                &&& t.session_key == s.session_key
                &&& result == if s.signaling_state is ServerHandshake {
                    Ok::<Seq<ActionModel>, Seq<char>>(Seq::<ActionModel>::empty())
                } else {
                    Err::<Seq<ActionModel>, Seq<char>>("invalid state transition: "@ + "foo"@)
                }
            }
        }),
{
}

/// What a responder sends to an initiator that is there: its permanent key, encrypted with the
/// token, if it has one, and then its new session key, encrypted for the initiator's permanent
/// key. It needs a number for each, and no session key yet.
pub proof fn responder_sends_token_and_key(s: SignalingModel, auth: ServerAuthModel, fresh: Fresh)
    requires
        s.path is Responder,
        s.signaling_state is ServerHandshake,
        !(s.identity is Unknown),
        auth.your_cookie == s.server.cookie_pair.ours,
        auth.responders is None,
        auth.initiator_connected == Some(true),
    ensures
        ({
            let (t, result) = s.on_server_auth(auth, fresh);
            let initiator = s.path->initiator;
            let number = initiator.csn_pair.ours.value();
            let tokens: nat = if s.auth_token is Some {
                1
            } else {
                0
            };
            let ours = initiator.cookie_pair.ours;
            let source = address_of(s.identity);
            if s.auth_token is Some && number == last_number() {
                &&& t == s
                &&& result == Err::<Seq<ActionModel>, Seq<char>>(numbers_used_up())
            } else if s.session_key is Some {
                &&& initiator_moved_on(s, t, initiator.handshake_state, number + tokens)
                &&& result == Err::<Seq<ActionModel>, Seq<char>>(
                    "Cannot generate new session key: It has already been generated"@,
                )
            } else if number + tokens == last_number() {
                &&& initiator_moved_on(
                    SignalingModel { session_key: Some(fresh.session_key), ..s },
                    t,
                    initiator.handshake_state,
                    number + tokens,
                )
                &&& result == Err::<Seq<ActionModel>, Seq<char>>(numbers_used_up())
            } else {
                &&& result matches Ok(actions)
                &&& actions.len() == tokens + 1
                &&& s.auth_token matches Some(token) ==> sends(
                    actions[0],
                    MessageModel::Token(s.permanent_key.public_key),
                    ours,
                    source,
                    1,
                    number + 1,
                    Sealing::Token(token),
                )
                &&& sends(
                    actions[tokens as int],
                    MessageModel::Key(fresh.session_key.public_key),
                    ours,
                    source,
                    1,
                    number + tokens + 1,
                    Sealing::Keys {
                        our_key: s.permanent_key,
                        their_key: initiator.permanent_key,
                    },
                )
                &&& is_done(s, t)
                &&& t.session_key == Some(fresh.session_key)
                &&& initiator_moved_on(
                    SignalingModel {
                        server: t.server,
                        signaling_state: t.signaling_state,
                        session_key: t.session_key,
                        ..s
                    },
                    t,
                    InitiatorHandshakeState::KeySent,
                    number + tokens + 1,
                )
            }
        }),
{
    next_counts_up(s.path->initiator.csn_pair.ours);
    if let Some((t, _)) = s.to_initiator() {
        next_counts_up(t.path->initiator.csn_pair.ours);
    }
}

/// In a later phase everyone does the same, and then tells that the phase cannot change.
pub proof fn handshake_cannot_start_over(s: SignalingModel, auth: ServerAuthModel, fresh: Fresh)
    requires
        !(s.signaling_state is ServerHandshake),
    ensures
        ({
            let early = SignalingModel { signaling_state: SignalingState::ServerHandshake, ..s };
            let (t, result) = s.on_server_auth(auth, fresh);
            let (u, expected) = early.on_server_auth(auth, fresh);
            &&& t == SignalingModel { signaling_state: s.signaling_state, ..u }
            &&& result == match expected {
                Ok(_) => Err::<Seq<ActionModel>, Seq<char>>("invalid state transition: "@ + "foo"@),
                Err(text) => Err(text),
            }
        }),
{
}

/// A token message tells our permanent key, encrypted with the token. Without a token there is
/// none.
pub proof fn token_message_tells_permanent_key(s: SignalingModel)
    requires
        s.path is Responder,
    ensures
        ({
            let (t, result) = s.token_sent();
            let initiator = s.path->initiator;
            let number = initiator.csn_pair.ours.value();
            match s.auth_token {
                None => t == s && result == Ok::<Seq<ActionModel>, Seq<char>>(
                    Seq::<ActionModel>::empty(),
                ),
                Some(token) => if number == last_number() {
                    t == s && result == Err::<Seq<ActionModel>, Seq<char>>(numbers_used_up())
                } else {
                    &&& result matches Ok(actions)
                    &&& actions.len() == 1
                    &&& sends(
                        actions[0],
                        MessageModel::Token(s.permanent_key.public_key),
                        initiator.cookie_pair.ours,
                        address_of(s.identity),
                        1,
                        number + 1,
                        Sealing::Token(token),
                    )
                    &&& initiator_moved_on(s, t, initiator.handshake_state, number + 1)
                },
            }
        }),
{
    next_counts_up(s.path->initiator.csn_pair.ours);
}

/// A key message tells our session key, encrypted for the initiator's permanent key.
pub proof fn key_message_tells_session_key(s: SignalingModel)
    requires
        s.path is Responder,
    ensures
        ({
            let (t, result) = s.key_sent();
            let initiator = s.path->initiator;
            let number = initiator.csn_pair.ours.value();
            match s.session_key {
                None => t == s && result == Err::<ActionModel, Seq<char>>(
                    "Missing session keypair"@,
                ),
                Some(session_key) => if number == last_number() {
                    t == s && result == Err::<ActionModel, Seq<char>>(numbers_used_up())
                } else {
                    &&& result matches Ok(action)
                    &&& sends(
                        action,
                        MessageModel::Key(session_key.public_key),
                        initiator.cookie_pair.ours,
                        address_of(s.identity),
                        1,
                        number + 1,
                        Sealing::Keys {
                            our_key: s.permanent_key,
                            their_key: initiator.permanent_key,
                        },
                    )
                    &&& initiator_moved_on(s, t, initiator.handshake_state, number + 1)
                },
            }
        }),
{
    next_counts_up(s.path->initiator.csn_pair.ours);
}

/// Making a session key sets that key and nothing else. A second one is refused.
pub proof fn session_key_is_set_alone(s: SignalingModel, key: KeyStore)
    ensures
        s.session_key is None ==> {
            &&& s.session_key_made(key).0 == (SignalingModel { session_key: Some(key), ..s })
            &&& s.session_key_made(key).1 is Ok
        },
        s.session_key is Some ==> {
            &&& s.session_key_made(key).0 == s
            &&& s.session_key_made(key).1 == Err::<(), Seq<char>>(
                "Cannot generate new session key: It has already been generated"@,
            )
        },
{
}

/// What becomes of a message that does not get as far as being opened and understood.
pub proof fn unusable_messages_fail(s: SignalingModel, msg: Incoming)
    ensures
        ({
            let u = s.after_nonce(msg.nonce);
            let fails = |text: Seq<char>|
                s.actions(msg) == Seq::<ActionModel>::empty() && s.after(msg) == SignalingModel {
                    server: ServerModel {
                        handshake_state: ServerStateModel::Failure(text),
                        ..u.server
                    },
                    ..u
                };
            match s.verdict(msg.nonce) {
                Verdict::Drop(_) => s.actions(msg) == Seq::<ActionModel>::empty() && s.after(msg)
                    == u,
                Verdict::Fail(reason) => fails("invalid nonce: "@ + reason),
                Verdict::Accept => {
                    &&& u.opening() matches Err(text) ==> fails(text)
                    &&& u.opening() is Ok ==> (msg.opened matches Err(text) ==> fails(
                        if s.server.handshake_state is New {
                            text
                        } else {
                            one_line(text)
                        },
                    ))
                },
            }
        }),
{
}

/// What becomes of an opened message: a server-hello comes first and a server-auth second, and
/// what they lead to is done, or tells why it fails. Anything else is out of order.
pub proof fn opened_messages_come_in_order(s: SignalingModel, msg: Incoming, opened: MessageModel)
    requires
        s.verdict(msg.nonce) is Accept,
        s.after_nonce(msg.nonce).opening() is Ok,
        msg.opened == Ok::<MessageModel, Seq<char>>(opened),
    ensures
        ({
            let u = s.after_nonce(msg.nonce);
            let state = s.server.handshake_state;
            let leads_to = |t: SignalingModel, result: Result<Seq<ActionModel>, Seq<char>>|
                match result {
                    Ok(actions) => s.after(msg) == t && s.actions(msg) == actions,
                    Err(text) => s.actions(msg) == Seq::<ActionModel>::empty() && s.after(msg)
                        == SignalingModel {
                        server: ServerModel {
                            handshake_state: ServerStateModel::Failure(text),
                            ..t.server
                        },
                        ..t
                    },
                };
            match (state, opened) {
                (ServerStateModel::New, MessageModel::ServerHello(key)) => leads_to(
                    u.on_server_hello(key).0,
                    u.on_server_hello(key).1,
                ),
                (ServerStateModel::ClientInfoSent, MessageModel::ServerAuth(auth)) => leads_to(
                    u.on_server_auth(auth, msg.fresh).0,
                    u.on_server_auth(auth, msg.fresh).1,
                ),
                _ => leads_to(
                    u,
                    Err(
                        "Invalid state transition: "@ + (match state {
                            ServerStateModel::New => "New"@,
                            ServerStateModel::ClientInfoSent => "ClientInfoSent"@,
                            _ => "Done"@,
                        }) + " <- "@ + opened.tag(),
                    ),
                ),
            }
        }),
{
}

/// Who can open what we send. What goes to the server is the client-hello in the clear, or
/// encrypted with our permanent key pair for the server's key. What goes to the initiator is
/// the token message, which alone is encrypted with the auth token, or encrypted with our
/// permanent key pair for the initiator's permanent key. Nothing goes to anyone else.
pub proof fn receivers_can_open_what_is_sent(s: SignalingModel, msg: Incoming, i: int)
    requires
        0 <= i < s.actions(msg).len(),
    ensures
        s.actions(msg)[i] matches ActionModel::Reply(out) && {
            let t = s.after(msg);
            let hello = out.payload == PayloadModel::Message(
                MessageModel::ClientHello(s.permanent_key.public_key),
            );
            let token = out.payload == PayloadModel::Message(
                MessageModel::Token(s.permanent_key.public_key),
            );
            ||| {
                &&& out.nonce.destination.0 == 0
                &&& hello
                &&& out.sealing == Sealing::Plain
                &&& s.path is Responder
            }
            ||| {
                &&& out.nonce.destination.0 == 0
                &&& !hello
                &&& t.server.permanent_key matches Some(key)
                &&& out.sealing == Sealing::Keys { our_key: s.permanent_key, their_key: key }
            }
            ||| {
                &&& out.nonce.destination.0 == 1
                &&& token
                &&& s.auth_token matches Some(secret)
                &&& out.sealing == Sealing::Token(secret)
                &&& s.path is Responder
            }
            ||| {
                &&& out.nonce.destination.0 == 1
                &&& !token
                &&& s.path matches PathModel::Responder { initiator }
                &&& out.sealing == Sealing::Keys {
                    our_key: s.permanent_key,
                    their_key: initiator.permanent_key,
                }
            }
        },
{
}

/// With or without an auth token, the first thing that a responder answers to a server-hello goes
/// out in the clear, and the second one is encrypted for the key that the server told. After
/// that, messages are opened with the same key.
pub proof fn responder_answers_in_the_clear(s: SignalingModel, msg: Incoming, key: PublicKey)
    requires
        s.path is Responder,
        msg.opened == Ok::<MessageModel, Seq<char>>(MessageModel::ServerHello(key)),
        s.actions(msg).len() > 0,
    ensures
        s.actions(msg).len() == 2,
        s.actions(msg)[0] matches ActionModel::Reply(out) && out.sealing == Sealing::Plain
            && out.nonce.destination.0 == 0,
        s.actions(msg)[1] matches ActionModel::Reply(out) && out.sealing == (Sealing::Keys {
            our_key: s.permanent_key,
            their_key: key,
        }) && out.nonce.destination.0 == 0,
        s.after(msg).opening() == Ok::<Sealing, Seq<char>>(
            Sealing::Keys { our_key: s.permanent_key, their_key: key },
        ),
{
}

/// An initiator answers a server-hello with one box, which is encrypted for the key that the
/// server told. After that, messages are opened with the same key.
pub proof fn initiator_answers_for_the_servers_key(
    s: SignalingModel,
    msg: Incoming,
    key: PublicKey,
)
    requires
        s.path is Initiator,
        msg.opened == Ok::<MessageModel, Seq<char>>(MessageModel::ServerHello(key)),
        s.actions(msg).len() > 0,
    ensures
        s.actions(msg).len() == 1,
        s.actions(msg)[0] matches ActionModel::Reply(out) && out.sealing == (Sealing::Keys {
            our_key: s.permanent_key,
            their_key: key,
        }) && out.nonce.destination.0 == 0,
        s.after(msg).opening() == Ok::<Sealing, Seq<char>>(
            Sealing::Keys { our_key: s.permanent_key, their_key: key },
        ),
{
}

/// Once messages are decrypted, they are decrypted with the same keys until the handshake fails.
pub proof fn messages_stay_opened_with_the_same_keys(
    s: SignalingModel,
    msg: Incoming,
    sealing: Sealing,
)
    requires
        s.opening() == Ok::<Sealing, Seq<char>>(sealing),
        sealing is Keys,
    ensures
        s.after(msg).opening() == Ok::<Sealing, Seq<char>>(sealing)
            || s.after(msg).server.handshake_state is Failure,
{
}

/// Every box is a message of the handshake that a client sends.
pub proof fn clients_send_client_messages(s: SignalingModel, msg: Incoming, i: int)
    requires
        0 <= i < s.actions(msg).len(),
    ensures
        s.actions(msg)[i] matches ActionModel::Reply(out) && out.payload matches
            PayloadModel::Message(m) && (m is ClientHello || m is ClientAuth || m is Token
            || m is Key),
{
}

} // verus!
