//! Laws of the signaling.

use vstd::prelude::*;

pub mod handshake;
pub mod task;
pub mod validation;
pub mod values;

use super::context::{PeerContext, ResponderContext};
use super::cookie::{Cookie, Seed};
use super::csn::{csn_max, next_counts_up};
use super::messages::{MessageModel, ServerAuthModel};
use super::model::{peer_fault, subprotocol, Fresh, PathModel, SignalingModel, Verdict};
use super::nonce::Nonce;
use super::state::ServerStateModel;
use super::types::{ActionModel, Address, ClientIdentity, Role};
use crate::boxes::{PayloadModel, Sealing};
use crate::crypto::{AuthToken, KeyStore, PublicKey};

verus! {

/// A message that comes in: its nonce, what opening it gives, and the random values that are
/// at hand while it is handled.
pub struct Incoming {
    pub nonce: Nonce,
    pub opened: Result<MessageModel, Seq<char>>,
    pub fresh: Fresh,
}

impl SignalingModel {
    /// The state after one message.
    pub open spec fn after(self, msg: Incoming) -> SignalingModel {
        self.on_message(msg.nonce, msg.opened, msg.fresh).0
    }

    /// The actions that follow one message.
    pub open spec fn actions(self, msg: Incoming) -> Seq<ActionModel> {
        self.on_message(msg.nonce, msg.opened, msg.fresh).1
    }

    /// The state after several messages, one after the other.
    pub open spec fn after_all(self, msgs: Seq<Incoming>) -> SignalingModel
        decreases msgs.len(),
    {
        if msgs.len() == 0 {
            self
        } else {
            self.after_all(msgs.drop_last()).after(msgs.last())
        }
    }

    /// The state after several nonces have been looked at, one after the other.
    pub open spec fn after_nonces(self, nonces: Seq<Nonce>) -> SignalingModel
        decreases nonces.len(),
    {
        if nonces.len() == 0 {
            self
        } else {
            self.after_nonces(nonces.drop_last()).after_nonce(nonces.last())
        }
    }
}

/// Whether the handshake with the server takes one step forward.
pub open spec fn steps_forward(from: ServerStateModel, to: ServerStateModel) -> bool {
    ||| from is New && to is ClientInfoSent
    ||| from is ClientInfoSent && to is Done
}

/// What an opened message from the server does not touch: our identity and role, and what is
/// remembered of the nonces of others.
proof fn opened_message_leaves_nonces(u: SignalingModel, msg: MessageModel, fresh: Fresh)
    ensures
        ({
            let t = u.on_server_message(msg, fresh).0;
            &&& t.identity == u.identity
            &&& t.role() == u.role()
            &&& t.server.csn_pair.theirs == u.server.csn_pair.theirs
            &&& t.server.cookie_pair == u.server.cookie_pair
            &&& u.path matches PathModel::Responder { initiator } ==> {
                &&& t.path->initiator.csn_pair.theirs == initiator.csn_pair.theirs
                &&& t.path->initiator.cookie_pair == initiator.cookie_pair
            }
            &&& !(u.server.handshake_state is ClientInfoSent) ==> t.path == u.path
        }),
{
}

/// A message leaves what is remembered of nonces as looking at its own nonce left it.
proof fn message_leaves_nonces(s: SignalingModel, msg: Incoming)
    ensures
        ({
            let u = s.after_nonce(msg.nonce);
            let t = s.after(msg);
            &&& t.identity == u.identity
            &&& t.role() == u.role()
            &&& t.server.csn_pair.theirs == u.server.csn_pair.theirs
            &&& t.server.cookie_pair == u.server.cookie_pair
            &&& u.path matches PathModel::Responder { initiator } ==> {
                &&& t.path->initiator.csn_pair.theirs == initiator.csn_pair.theirs
                &&& t.path->initiator.cookie_pair == initiator.cookie_pair
            }
            &&& !(s.server.handshake_state is ClientInfoSent) ==> t.path == u.path
        }),
{
    let u = s.after_nonce(msg.nonce);
    assert(u.server.handshake_state == s.server.handshake_state);
    if let Ok(opened) = msg.opened {
        opened_message_leaves_nonces(u, opened, msg.fresh);
    }
}

/// No message makes a responder known during the handshake with the server.
pub proof fn on_message_keeps_wf(
    s: SignalingModel,
    nonce: Nonce,
    opened: Result<MessageModel, Seq<char>>,
    fresh: Fresh,
)
    requires
        s.wf(),
        s.signaling_state is ServerHandshake,
    ensures
        s.on_message(nonce, opened, fresh).0.wf(),
{
}

/// A failure is final: whatever comes in, the handshake stays failed and nothing is sent.
/// Only another bad nonce changes the reason.
pub proof fn failure_is_final(s: SignalingModel, msg: Incoming)
    requires
        s.server.handshake_state is Failure,
    ensures
        s.after(msg).server.handshake_state is Failure,
        s.actions(msg) == Seq::<ActionModel>::empty(),
        s.after(msg).signaling_state == s.signaling_state,
        !(s.verdict(msg.nonce) is Fail) ==> s.after(msg).server.handshake_state
            == s.server.handshake_state,
{
}

/// A message that lets the handshake fail is not answered.
pub proof fn nothing_is_sent_on_failure(s: SignalingModel, msg: Incoming)
    requires
        s.after(msg).server.handshake_state is Failure,
    ensures
        s.actions(msg) == Seq::<ActionModel>::empty(),
{
}

/// A discarded message is not answered and leaves everything as it was, except that it may
/// assign us our identity.
pub proof fn discarded_message_changes_nothing(s: SignalingModel, msg: Incoming)
    requires
        s.verdict(msg.nonce) is Drop,
    ensures
        s.actions(msg) == Seq::<ActionModel>::empty(),
        s.after(msg) == s.identified(msg.nonce),
        !(s.identity is Unknown) ==> s.after(msg) == s,
{
}

/// The handshake with the server advances step by step: from `New` to `ClientInfoSent`, from
/// there to `Done`, and from anywhere to `Failure`. It stays where it is exactly if the message
/// is discarded.
pub proof fn server_handshake_advances_in_order(s: SignalingModel, msg: Incoming)
    requires
        !(s.server.handshake_state is Failure),
    ensures
        ({
            let from = s.server.handshake_state;
            let to = s.after(msg).server.handshake_state;
            &&& to is New ==> from is New
            &&& to is ClientInfoSent ==> from is New || from is ClientInfoSent
            &&& to is Done ==> from is ClientInfoSent || from is Done
            &&& to == from <==> s.verdict(msg.nonce) is Drop
        }),
{
}

/// A message leaves the handshake with the server where it is, lets it fail, or takes it one
/// step forward, and only a step forward is answered.
pub proof fn only_steps_forward_are_answered(s: SignalingModel, msg: Incoming)
    ensures
        ({
            let from = s.server.handshake_state;
            let to = s.after(msg).server.handshake_state;
            &&& to == from || to is Failure || steps_forward(from, to)
            &&& s.actions(msg).len() > 0 ==> steps_forward(from, to)
        }),
{
    if s.server.handshake_state is Failure {
        failure_is_final(s, msg);
    } else {
        server_handshake_advances_in_order(s, msg);
    }
}

/// The handshake with the peer begins exactly when that with the server is done.
pub proof fn peer_handshake_follows_server_handshake(s: SignalingModel, msg: Incoming)
    requires
        s.signaling_state is ServerHandshake,
        !(s.server.handshake_state is Done),
    ensures
        s.after(msg).signaling_state is PeerHandshake <==> s.after(
            msg,
        ).server.handshake_state is Done,
        s.after(msg).signaling_state is ServerHandshake <==> !(s.after(
            msg,
        ).server.handshake_state is Done),
{
}

/// What a message never changes: our role, our permanent key, our auth token, the ping
/// interval and our cookie for the server.
pub proof fn what_is_ours_stays(s: SignalingModel, msg: Incoming)
    ensures
        s.after(msg).role() == s.role(),
        s.after(msg).permanent_key == s.permanent_key,
        s.after(msg).auth_token == s.auth_token,
        s.after(msg).ping_interval == s.ping_interval,
        s.after(msg).server.cookie_pair.ours == s.server.cookie_pair.ours,
{
}

/// The server's key and our session key are set once and never replaced.
pub proof fn keys_are_set_once(s: SignalingModel, msg: Incoming)
    ensures
        s.server.permanent_key is Some ==> s.after(msg).server.permanent_key
            == s.server.permanent_key,
        s.session_key is Some ==> s.after(msg).session_key == s.session_key,
{
}

/// Our session key is another one than our permanent key.
pub proof fn session_key_is_not_permanent_key(s: SignalingModel, msg: Incoming)
    requires
        msg.fresh.session_key != s.permanent_key,
        s.session_key != Some(s.permanent_key),
    ensures
        s.after(msg).session_key != Some(s.after(msg).permanent_key),
{
}

/// The identity that we are assigned fits our role and is never replaced. It is the
/// destination of the message that assigns it, which is not the server's first one.
pub proof fn identity_is_assigned_once(s: SignalingModel, msg: Incoming)
    requires
        s.identity_fits(),
    ensures
        s.after(msg).identity_fits(),
        !(s.identity is Unknown) ==> s.after(msg).identity == s.identity,
        s.after(msg).identity != s.identity ==> {
            &&& !(s.server.handshake_state is New)
            &&& s.after(msg).identity.holds() == msg.nonce.destination
        },
{
    message_leaves_nonces(s, msg);
}

/// Looking at a nonce never replaces our identity. A message to another address is refused and
/// changes nothing.
pub proof fn nonce_never_replaces_identity(s: SignalingModel, nonce: Nonce)
    requires
        !(s.identity is Unknown),
    ensures
        s.after_nonce(nonce).identity == s.identity,
        nonce.destination != s.identity.holds() ==> {
            &&& s.after_nonce(nonce) == s
            &&& s.verdict(nonce) == Verdict::Fail(
                "bad destination: "@ + nonce.destination.name() + " (our identity is "@
                    + s.identity.name() + ")"@,
            )
        },
{
}

/// Looking at a nonce does not change how its message has to be opened.
pub proof fn nonce_does_not_change_opening(s: SignalingModel, nonce: Nonce)
    ensures
        s.after_nonce(nonce).opening() == s.opening(),
{
}

/// A session key is made once: of two attempts the second one fails and keeps the first key.
pub proof fn session_key_is_made_once(s: SignalingModel, first: KeyStore, second: KeyStore)
    ensures
        ({
            let (t, _) = s.session_key_made(first);
            &&& s.session_key_made(first).1 is Ok <==> s.session_key is None
            &&& t.session_key is Some
            &&& t.session_key_made(second).0 == t
            &&& t.session_key_made(second).1 is Err
        }),
{
}

/// A responder with an identity looks at messages from the initiator: it does not discard them.
pub proof fn responder_listens_to_initiator(s: SignalingModel, nonce: Nonce)
    requires
        s.role() is Responder,
        s.identity is Responder,
        nonce.source.0 == 0x01,
        nonce.destination == s.identity.holds(),
    ensures
        !(s.verdict(nonce) is Drop),
        s.verdict(nonce) is Accept <==> peer_fault(
            s.path->initiator.peer(),
            nonce,
        ) is None,
{
}

/// Whatever comes in, what is settled stays settled: a failure, the identity that we were
/// assigned, the server's key, our session key, and what never changes at all.
pub proof fn what_is_settled_stays(s: SignalingModel, msgs: Seq<Incoming>)
    ensures
        s.server.handshake_state is Failure ==> s.after_all(msgs).server.handshake_state is Failure,
        !(s.identity is Unknown) ==> s.after_all(msgs).identity == s.identity,
        s.server.permanent_key is Some ==> s.after_all(msgs).server.permanent_key
            == s.server.permanent_key,
        s.session_key is Some ==> s.after_all(msgs).session_key == s.session_key,
        s.after_all(msgs).role() == s.role(),
        s.after_all(msgs).permanent_key == s.permanent_key,
        s.after_all(msgs).auth_token == s.auth_token,
        s.after_all(msgs).ping_interval == s.ping_interval,
    decreases msgs.len(),
{
    if msgs.len() > 0 {
        let t = s.after_all(msgs.drop_last());
        what_is_settled_stays(s, msgs.drop_last());
        if t.server.handshake_state is Failure {
            failure_is_final(t, msgs.last());
        }
        assigned_identity_stays(t, msgs.last());
        keys_are_set_once(t, msgs.last());
        what_is_ours_stays(t, msgs.last());
    }
}

/// An identity that we were assigned stays.
proof fn assigned_identity_stays(s: SignalingModel, msg: Incoming)
    ensures
        !(s.identity is Unknown) ==> s.after(msg).identity == s.identity,
{
    message_leaves_nonces(s, msg);
}

/// We only look at messages to us: to 0x00 as long as we have no identity, and to its address
/// after that. They come from the server, or from a known client of the other role.
pub proof fn accepted_message_is_for_us(s: SignalingModel, nonce: Nonce)
    requires
        s.verdict(nonce) is Accept,
    ensures
        nonce.destination == s.identity_after(nonce).holds(),
        ({
            ||| nonce.source.0 == 0x00
            ||| s.identity_after(nonce) is Responder && nonce.source.0 == 0x01
            ||| s.identity_after(nonce) is Initiator && nonce.source.0 >= 0x02
        }),
        s.peer_at(nonce.source) is Some,
{
}

/// Before we have an identity, we only look at messages from the server.
pub proof fn without_identity_only_the_server_counts(s: SignalingModel, nonce: Nonce)
    requires
        s.identity_after(nonce) is Unknown,
        nonce.source.0 != 0x00,
    ensures
        !(s.verdict(nonce) is Accept),
        nonce.destination.0 == 0x00 ==> s.verdict(nonce) is Drop,
{
}

/// The nonce of an accepted message continues where the peer stopped: its sequence number
/// is by one higher than that of the last accepted message, and the cookie is the same. The
/// first accepted message has an overflow number of 0 and another cookie than ours.
pub proof fn accepted_nonce_continues(s: SignalingModel, nonce: Nonce)
    requires
        s.verdict(nonce) is Accept,
    ensures
        s.peer_at(nonce.source) matches Some(peer) && {
            &&& match peer.csn_pair.theirs {
                Some(last) => nonce.csn.value() == last.value() + 1,
                None => nonce.csn.overflow == 0,
            }
            &&& match peer.cookie_pair.theirs {
                Some(cookie) => nonce.cookie == cookie,
                None => nonce.cookie != peer.cookie_pair.ours,
            }
        },
        s.after_nonce(nonce).peer_at(nonce.source) matches Some(peer) && {
            &&& peer.csn_pair.theirs == Some(nonce.csn)
            &&& peer.cookie_pair.theirs == Some(nonce.cookie)
        },
{
}

/// The sequence number of the server's last accepted message never decreases, and its cookie
/// never changes.
proof fn server_counts_up(s: SignalingModel, msg: Incoming)
    ensures
        s.server.csn_pair.theirs matches Some(last) ==> s.after(
            msg,
        ).server.csn_pair.theirs matches Some(now) && last.value() <= now.value(),
        s.server.cookie_pair.theirs is Some ==> s.after(msg).server.cookie_pair.theirs
            == s.server.cookie_pair.theirs,
        s.after(msg).server.cookie_pair.ours == s.server.cookie_pair.ours,
{
    message_leaves_nonces(s, msg);
}

/// Whatever comes in, the sequence number of the server's last accepted message never
/// decreases, and its cookie never changes.
pub proof fn server_counts_up_always(s: SignalingModel, msgs: Seq<Incoming>)
    ensures
        s.server.csn_pair.theirs matches Some(last) ==> s.after_all(
            msgs,
        ).server.csn_pair.theirs matches Some(now) && last.value() <= now.value(),
        s.server.cookie_pair.theirs is Some ==> s.after_all(msgs).server.cookie_pair.theirs
            == s.server.cookie_pair.theirs,
        s.after_all(msgs).server.cookie_pair.ours == s.server.cookie_pair.ours,
    decreases msgs.len(),
{
    if msgs.len() > 0 {
        server_counts_up_always(s, msgs.drop_last());
        server_counts_up(s.after_all(msgs.drop_last()), msgs.last());
    }
}

/// The number of an accepted message from the server is kept.
proof fn accepted_number_is_kept(s: SignalingModel, msg: Incoming)
    requires
        msg.nonce.source.0 == 0x00,
        s.verdict(msg.nonce) is Accept,
    ensures
        s.after(msg).server.csn_pair.theirs == Some(msg.nonce.csn),
{
    message_leaves_nonces(s, msg);
}

/// Whether the peer at the address has used the number, or a higher one.
pub open spec fn has_used(s: SignalingModel, address: Address, number: nat) -> bool {
    &&& s.peer_at(address) matches Some(peer)
    &&& peer.csn_pair.theirs matches Some(last)
    &&& number <= last.value()
}

/// A number that the peer has used is refused.
proof fn used_number_is_refused(s: SignalingModel, nonce: Nonce)
    requires
        has_used(s, nonce.source, nonce.csn.value()),
    ensures
        !(s.verdict(nonce) is Accept),
{
}

/// A used number stays used, whatever nonce is looked at.
proof fn nonce_leaves_numbers_used(s: SignalingModel, nonce: Nonce, address: Address, number: nat)
    requires
        has_used(s, address, number),
    ensures
        has_used(s.after_nonce(nonce), address, number),
{
}

/// A used number stays used, whatever nonces are looked at.
proof fn nonces_leave_numbers_used(
    s: SignalingModel,
    nonces: Seq<Nonce>,
    address: Address,
    number: nat,
)
    requires
        has_used(s, address, number),
    ensures
        has_used(s.after_nonces(nonces), address, number),
    decreases nonces.len(),
{
    if nonces.len() > 0 {
        nonces_leave_numbers_used(s, nonces.drop_last(), address, number);
        let t = s.after_nonces(nonces.drop_last());
        nonce_leaves_numbers_used(t, nonces.last(), address, number);
    }
}

/// A nonce is not accepted twice, whoever it comes from: once it was, it is refused, whatever
/// nonces were looked at in between.
pub proof fn nonce_is_not_accepted_twice(s: SignalingModel, nonce: Nonce, between: Seq<Nonce>)
    requires
        s.verdict(nonce) is Accept,
    ensures
        !(s.after_nonce(nonce).after_nonces(between).verdict(nonce) is Accept),
{
    let t = s.after_nonce(nonce);
    accepted_nonce_continues(s, nonce);
    nonces_leave_numbers_used(t, between, nonce.source, nonce.csn.value());
    used_number_is_refused(t.after_nonces(between), nonce);
}

/// Whether no list of responders can come in any more: the handshake with the server is done
/// or has failed.
pub open spec fn server_handshake_is_over(s: SignalingModel) -> bool {
    s.server.handshake_state is Done || s.server.handshake_state is Failure
}

/// What looking at the nonce of a message remembers is still there once the message is handled.
proof fn message_leaves_numbers_used(
    s: SignalingModel,
    msg: Incoming,
    address: Address,
    number: nat,
)
    requires
        address.0 < 0x02 || server_handshake_is_over(s),
        has_used(s.after_nonce(msg.nonce), address, number),
    ensures
        has_used(s.after(msg), address, number),
        server_handshake_is_over(s) ==> server_handshake_is_over(s.after(msg)),
{
    message_leaves_nonces(s, msg);
    only_steps_forward_are_answered(s, msg);
}

/// A used number stays used, whatever comes in.
proof fn messages_leave_numbers_used(
    s: SignalingModel,
    msgs: Seq<Incoming>,
    address: Address,
    number: nat,
)
    requires
        address.0 < 0x02 || server_handshake_is_over(s),
        has_used(s, address, number),
    ensures
        has_used(s.after_all(msgs), address, number),
        server_handshake_is_over(s) ==> server_handshake_is_over(s.after_all(msgs)),
    decreases msgs.len(),
{
    if msgs.len() > 0 {
        messages_leave_numbers_used(s, msgs.drop_last(), address, number);
        let t = s.after_all(msgs.drop_last());
        nonce_leaves_numbers_used(t, msgs.last().nonce, address, number);
        message_leaves_numbers_used(t, msgs.last(), address, number);
    }
}

/// A message is not accepted twice: once it was, no message with the same nonce is accepted any
/// more, whatever came in between. Responders, who are known from the end of the handshake with
/// the server on, are no exception.
pub proof fn message_is_not_accepted_twice(
    s: SignalingModel,
    msg: Incoming,
    between: Seq<Incoming>,
)
    requires
        msg.nonce.source.0 < 0x02 || server_handshake_is_over(s),
        s.verdict(msg.nonce) is Accept,
    ensures
        !(s.after(msg).after_all(between).verdict(msg.nonce) is Accept),
{
    let (source, number) = (msg.nonce.source, msg.nonce.csn.value());
    accepted_nonce_continues(s, msg.nonce);
    message_leaves_numbers_used(s, msg, source, number);
    messages_leave_numbers_used(s.after(msg), between, source, number);
    used_number_is_refused(s.after(msg).after_all(between), msg.nonce);
}

/// The server's cookie never is our own one.
pub proof fn cookies_differ(s: SignalingModel, msg: Incoming)
    requires
        s.server.cookie_pair.theirs != Some(s.server.cookie_pair.ours),
    ensures
        s.after(msg).server.cookie_pair.theirs != Some(s.after(msg).server.cookie_pair.ours),
{
}

/// The number of our last message to the server or, as a responder, to the initiator.
pub open spec fn our_number(s: SignalingModel, destination: Address) -> nat {
    match s.path {
        PathModel::Responder { initiator } => if destination.0 == 0x01 {
            initiator.csn_pair.ours.value()
        } else {
            s.server.csn_pair.ours.value()
        },
        _ => s.server.csn_pair.ours.value(),
    }
}

/// Our cookie for the server or, as a responder, for the initiator.
pub open spec fn our_cookie(s: SignalingModel, destination: Address) -> Cookie {
    match s.path {
        PathModel::Responder { initiator } => if destination.0 == 0x01 {
            initiator.cookie_pair.ours
        } else {
            s.server.cookie_pair.ours
        },
        _ => s.server.cookie_pair.ours,
    }
}

/// Whether the action sends a box whose nonce is in order: it comes from our identity, goes
/// to the server or to the initiator with our cookie for them, and has a number that was not
/// used before `s` but is used up in `t`.
pub open spec fn sends_in_order(s: SignalingModel, t: SignalingModel, action: ActionModel) -> bool {
    &&& action matches ActionModel::Reply(out)
    &&& out.nonce.source == t.identity.holds()
    &&& out.nonce.destination.0 == 0x00 || out.nonce.destination.0 == 0x01 && t.path is Responder
    &&& out.nonce.cookie == our_cookie(s, out.nonce.destination)
    &&& our_number(s, out.nonce.destination) < out.nonce.csn.value() <= our_number(
        t,
        out.nonce.destination,
    )
}

/// The boxes of the actions are in order, and their numbers increase.
pub open spec fn all_in_order(
    s: SignalingModel,
    t: SignalingModel,
    actions: Seq<ActionModel>,
) -> bool {
    &&& forall|i: int| 0 <= i < actions.len() ==> sends_in_order(s, t, #[trigger] actions[i])
    &&& forall|i: int, j: int|
        0 <= i < j < actions.len() ==> (#[trigger] actions[i])->Reply_0.nonce.csn.value() < (
        #[trigger] actions[j])->Reply_0.nonce.csn.value()
    &&& forall|destination: Address|
        our_number(s, destination) <= #[trigger] our_number(t, destination)
}

/// Our answer to the server's first message is in order.
proof fn hello_counts_up(s: SignalingModel, key: PublicKey)
    ensures
        s.on_server_hello(key).1 matches Ok(actions) ==> all_in_order(
            s,
            s.on_server_hello(key).0,
            actions,
        ),
        forall|destination: Address|
            our_number(s, destination) <= #[trigger] our_number(
                s.on_server_hello(key).0,
                destination,
            ),
{
    next_counts_up(s.server.csn_pair.ours);
    if let Some((t, _)) = s.to_server() {
        next_counts_up(t.server.csn_pair.ours);
    }
}

/// Our answer to the server's authentication is in order.
proof fn auth_counts_up(s: SignalingModel, auth: ServerAuthModel, fresh: Fresh)
    ensures
        s.on_server_auth(auth, fresh).1 matches Ok(actions) ==> all_in_order(
            s,
            s.on_server_auth(auth, fresh).0,
            actions,
        ),
        forall|destination: Address|
            our_number(s, destination) <= #[trigger] our_number(
                s.on_server_auth(auth, fresh).0,
                destination,
            ),
{
    if let PathModel::Responder { initiator } = s.path {
        next_counts_up(initiator.csn_pair.ours);
        if let Some((t, _)) = s.to_initiator() {
            next_counts_up(t.path->initiator.csn_pair.ours);
        }
    }
}

/// Looking at a nonce uses up no number of ours.
proof fn nonce_uses_no_number(s: SignalingModel, nonce: Nonce)
    ensures
        forall|destination: Address|
            #[trigger] our_number(s.after_nonce(nonce), destination) == our_number(s, destination),
        forall|destination: Address|
            #[trigger] our_cookie(s.after_nonce(nonce), destination) == our_cookie(s, destination),
        s.after_nonce(nonce).path is Responder <==> s.path is Responder,
{
}

/// Every action during the handshake with the server sends a box from our identity with a
/// new number, and the numbers increase.
pub proof fn replies_count_up(s: SignalingModel, msg: Incoming)
    ensures
        all_in_order(s, s.after(msg), s.actions(msg)),
{
    let u = s.after_nonce(msg.nonce);
    nonce_uses_no_number(s, msg.nonce);
    if let Ok(MessageModel::ServerHello(key)) = msg.opened {
        hello_counts_up(u, key);
    }
    if let Ok(MessageModel::ServerAuth(auth)) = msg.opened {
        auth_counts_up(u, auth, msg.fresh);
    }
}

/// Whatever comes in, no number of ours becomes free again.
proof fn numbers_stay_used(s: SignalingModel, msgs: Seq<Incoming>)
    ensures
        forall|destination: Address|
            our_number(s, destination) <= #[trigger] our_number(s.after_all(msgs), destination),
    decreases msgs.len(),
{
    if msgs.len() > 0 {
        numbers_stay_used(s, msgs.drop_last());
        let t = s.after_all(msgs.drop_last());
        replies_count_up(t, msgs.last());
        assert forall|destination: Address|
            our_number(s, destination) <= #[trigger] our_number(s.after_all(msgs), destination) by {
            assert(our_number(s, destination) <= our_number(t, destination));
            assert(our_number(t, destination) <= our_number(t.after(msgs.last()), destination));
        }
    }
}

/// No two boxes that answer the same message have the same nonce.
pub proof fn nonces_of_one_answer_differ(s: SignalingModel, msg: Incoming, i: int, j: int)
    requires
        0 <= i < j < s.actions(msg).len(),
    ensures
        s.actions(msg)[i]->Reply_0.nonce != s.actions(msg)[j]->Reply_0.nonce,
{
    replies_count_up(s, msg);
}

/// No two boxes that answer different messages have the same nonce, whatever came in between.
pub proof fn nonces_of_two_answers_differ(
    s: SignalingModel,
    msg: Incoming,
    between: Seq<Incoming>,
    later: Incoming,
    i: int,
    j: int,
)
    requires
        0 <= i < s.actions(msg).len(),
        0 <= j < s.after(msg).after_all(between).actions(later).len(),
    ensures
        s.actions(msg)[i]->Reply_0.nonce != s.after(msg).after_all(between).actions(
            later,
        )[j]->Reply_0.nonce,
{
    replies_count_up(s, msg);
    numbers_stay_used(s.after(msg), between);
    replies_count_up(s.after(msg).after_all(between), later);
    let t = s.after(msg);
    let u = t.after_all(between);
    let first = s.actions(msg)[i];
    let second = u.actions(later)[j];
    assert(sends_in_order(s, t, first));
    assert(sends_in_order(u, u.after(later), second));
    let destination = first->Reply_0.nonce.destination;
    assert(our_number(t, destination) <= our_number(u, destination));
}

/// Every action sends a box, and only our permanent key is sent in the clear: what else we
/// send is encrypted with our permanent key pair or with the auth token.
pub proof fn only_client_hello_is_plain(s: SignalingModel, msg: Incoming, i: int)
    requires
        0 <= i < s.actions(msg).len(),
    ensures
        s.actions(msg)[i] matches ActionModel::Reply(out) && match out.sealing {
            Sealing::Plain => out.payload == PayloadModel::Message(
                MessageModel::ClientHello(s.permanent_key.public_key),
            ),
            Sealing::Keys { our_key, .. } => our_key == s.permanent_key,
            Sealing::Token(token) => s.auth_token == Some(token),
        },
{
}

/// An accepted first message from the server is answered by an initiator with its
/// authentication, and by a responder with its key and its authentication, as long as there
/// are sequence numbers left.
pub proof fn server_hello_is_answered(s: SignalingModel, msg: Incoming, key: PublicKey)
    requires
        s.server.handshake_state is New,
        s.server.permanent_key is None,
        s.server.csn_pair.ours.value() + 2 <= csn_max(),
        msg.nonce.source.0 == 0x00,
        s.verdict(msg.nonce) is Accept,
        msg.opened == Ok::<MessageModel, Seq<char>>(MessageModel::ServerHello(key)),
    ensures
        s.after(msg).server.handshake_state is ClientInfoSent,
        s.after(msg).server.permanent_key == Some(key),
        s.actions(msg).len() == (match s.role() {
            Role::Initiator => 1nat,
            Role::Responder => 2nat,
        }),
        s.actions(msg).last() matches ActionModel::Reply(out) && {
            &&& out.payload matches PayloadModel::Message(MessageModel::ClientAuth(auth))
            &&& auth.your_cookie == msg.nonce.cookie
            &&& auth.subprotocols == seq![subprotocol()]
            &&& auth.ping_interval == s.ping_interval
            &&& out.sealing == Sealing::Keys { our_key: s.permanent_key, their_key: key }
        },
        s.role() is Responder ==> (s.actions(msg)[0] matches ActionModel::Reply(out)
            && out.payload == PayloadModel::Message(
            MessageModel::ClientHello(s.permanent_key.public_key),
        )),
{
    let u = s.after_nonce(msg.nonce);
    next_counts_up(u.server.csn_pair.ours);
}

/// Whether the server's authentication is in order for an initiator: it lists responders, none
/// of them twice, and nothing else than responders.
pub open spec fn lists_responders(auth: ServerAuthModel) -> bool {
    &&& auth.initiator_connected is None
    &&& auth.responders matches Some(addresses) && {
        &&& forall|i: int| 0 <= i < addresses.len() ==> (#[trigger] addresses[i]).0 >= 0x02
        &&& addresses.no_duplicates()
    }
}

/// An initiator takes the server's authentication exactly if it holds the initiator's cookie
/// and is in order. Then it knows exactly the listed responders, all of them new, and has
/// nothing to send.
pub proof fn initiator_knows_listed_responders(
    s: SignalingModel,
    msg: Incoming,
    auth: ServerAuthModel,
)
    requires
        s.wf(),
        s.role() is Initiator,
        s.signaling_state is ServerHandshake,
        s.server.handshake_state is ClientInfoSent,
        s.server.permanent_key is Some,
        s.verdict(msg.nonce) is Accept,
        s.identity_after(msg.nonce) is Initiator,
        msg.opened == Ok::<MessageModel, Seq<char>>(MessageModel::ServerAuth(auth)),
    ensures
        s.after(msg).server.handshake_state is Done <==> auth.your_cookie
            == s.server.cookie_pair.ours && lists_responders(auth),
        s.actions(msg) == Seq::<ActionModel>::empty(),
        s.after(msg).server.handshake_state is Done ==> {
            let addresses = auth.responders.unwrap();
            let responders = s.after(msg).path->responders;
            &&& forall|a: u8| #[trigger]
                responders.contains_key(a) <==> addresses.contains(Address(a))
            &&& forall|a: u8| #[trigger]
                responders.contains_key(a) ==> a >= 0x02 && responders[a]
                    == ResponderContext::fresh(Address(a), msg.fresh.seeds@[a as int])
            &&& responders.len() == addresses.len()
        },
{
    let t = s.after(msg);
    if auth.your_cookie == s.server.cookie_pair.ours && lists_responders(auth) {
        let addresses = auth.responders.unwrap();
        listed_addresses_are_counted(addresses, t.path->responders.dom());
    }
}

/// A set that holds exactly the listed addresses has as many elements as the list, if none is
/// listed twice.
proof fn listed_addresses_are_counted(addresses: Seq<Address>, set: Set<u8>)
    requires
        addresses.no_duplicates(),
        forall|a: u8| #[trigger] set.contains(a) <==> addresses.contains(Address(a)),
    ensures
        set.len() == addresses.len(),
{
    let bytes = addresses.map_values(|address: Address| address.0);
    assert forall|i: int, j: int| 0 <= i < bytes.len() && 0 <= j < bytes.len() && i != j implies
        bytes[i] != bytes[j] by {
        assert(addresses[i] != addresses[j]);
    }
    bytes.unique_seq_to_set();
    assert forall|a: u8| set.contains(a) <==> bytes.to_set().contains(a) by {
        if addresses.contains(Address(a)) {
            let i = choose|i: int| 0 <= i < addresses.len() && addresses[i] == Address(a);
            assert(bytes[i] == a);
        }
        if bytes.contains(a) {
            let i = choose|i: int| 0 <= i < bytes.len() && bytes[i] == a;
            assert(addresses[i] == Address(a));
        }
    }
    assert(set =~= bytes.to_set());
}

/// A responder takes the server's authentication exactly if it holds the responder's cookie and
/// tells whether an initiator is there and nothing of responders. With an initiator there, it
/// needs unused sequence numbers and no session key yet.
pub proof fn responder_checks_server_auth(
    s: SignalingModel,
    msg: Incoming,
    auth: ServerAuthModel,
)
    requires
        s.role() is Responder,
        s.signaling_state is ServerHandshake,
        s.server.handshake_state is ClientInfoSent,
        s.server.permanent_key is Some,
        s.session_key is None,
        s.path->initiator.csn_pair.ours.value() + 2 <= csn_max(),
        msg.nonce.source.0 == 0x00,
        s.verdict(msg.nonce) is Accept,
        s.identity_after(msg.nonce) is Responder,
        msg.opened == Ok::<MessageModel, Seq<char>>(MessageModel::ServerAuth(auth)),
    ensures
        s.after(msg).server.handshake_state is Done <==> {
            &&& auth.your_cookie == s.server.cookie_pair.ours
            &&& auth.responders is None
            &&& auth.initiator_connected is Some
        },
{
    next_counts_up(s.path->initiator.csn_pair.ours);
    if let Some((t, _)) = s.to_initiator() {
        next_counts_up(t.path->initiator.csn_pair.ours);
    }
}

/// If the initiator is there, a responder that takes the server's authentication sends it the
/// token, if it has one, and then its new session key. Otherwise it sends nothing.
pub proof fn responder_greets_initiator(
    s: SignalingModel,
    msg: Incoming,
    auth: ServerAuthModel,
)
    requires
        s.role() is Responder,
        s.server.handshake_state is ClientInfoSent,
        msg.opened == Ok::<MessageModel, Seq<char>>(MessageModel::ServerAuth(auth)),
        s.after(msg).server.handshake_state is Done,
    ensures
        auth.initiator_connected == Some(false) ==> s.actions(msg) == Seq::<ActionModel>::empty(),
        auth.initiator_connected == Some(true) ==> {
            &&& s.after(msg).path->initiator.handshake_state is KeySent
            &&& s.after(msg).session_key == Some(msg.fresh.session_key)
            &&& s.actions(msg).len() == (if s.auth_token is Some {
                2nat
            } else {
                1nat
            })
            &&& s.auth_token matches Some(token) ==> (s.actions(msg)[0] matches ActionModel::Reply(
                out,
            ) && {
                &&& out.payload == PayloadModel::Message(
                    MessageModel::Token(s.permanent_key.public_key),
                )
                &&& out.sealing == Sealing::Token(token)
            })
            &&& s.actions(msg).last() matches ActionModel::Reply(out) && {
                &&& out.payload == PayloadModel::Message(
                    MessageModel::Key(msg.fresh.session_key.public_key),
                )
                &&& out.sealing == Sealing::Keys {
                    our_key: s.permanent_key,
                    their_key: s.path->initiator.permanent_key,
                }
            }
        },
{
}

/// Whether the two messages are those of a server that follows the protocol: the first one is
/// plain and tells its key, the second one assigns the address.
pub open spec fn follow_protocol(
    ours: Cookie,
    hello: Incoming,
    auth: Incoming,
    address: Address,
) -> bool {
    &&& hello.nonce.cookie != ours
    &&& hello.nonce.source.0 == 0x00
    &&& hello.nonce.destination.0 == 0x00
    &&& hello.nonce.csn.overflow == 0
    &&& hello.opened matches Ok(MessageModel::ServerHello(_))
    &&& auth.nonce.cookie == hello.nonce.cookie
    &&& auth.nonce.source.0 == 0x00
    &&& auth.nonce.destination == address
    &&& auth.nonce.csn.value() == hello.nonce.csn.value() + 1
    &&& auth.opened matches Ok(MessageModel::ServerAuth(msg)) && msg.your_cookie == ours
}

/// With a server that follows the protocol, the handshake of a new initiator is done after
/// two messages.
pub proof fn initiator_handshake_completes(
    permanent_key: KeyStore,
    auth_token: AuthToken,
    server: Seed,
    hello: Incoming,
    auth: Incoming,
)
    requires
        follow_protocol(server.cookie, hello, auth, Address(0x01)),
        lists_responders(auth.opened->Ok_0->ServerAuth_0),
    ensures
        ({
            let s = SignalingModel::new_initiator(permanent_key, auth_token, server);
            let t = s.after(hello).after(auth);
            &&& t.server.handshake_state is Done
            &&& t.signaling_state is PeerHandshake
            &&& t.identity is Initiator
        }),
{
    let s = SignalingModel::new_initiator(permanent_key, auth_token, server);
    let key = hello.opened->Ok_0->ServerHello_0;
    server_hello_is_answered(s, hello, key);
    accepted_number_is_kept(s, hello);
    let t = s.after(hello);
    assert(t.server.cookie_pair.theirs == Some(hello.nonce.cookie));
    assert(t.verdict(auth.nonce) is Accept);
    initiator_knows_listed_responders(t, auth, auth.opened->Ok_0->ServerAuth_0);
    peer_handshake_follows_server_handshake(t, auth);
}

/// With a server that follows the protocol, the handshake of a new responder is done after
/// two messages, whether the initiator is there or not.
pub proof fn responder_handshake_completes(
    permanent_key: KeyStore,
    initiator_pubkey: PublicKey,
    auth_token: Option<AuthToken>,
    server: Seed,
    initiator: Seed,
    hello: Incoming,
    auth: Incoming,
    address: u8,
)
    requires
        address >= 0x02,
        follow_protocol(server.cookie, hello, auth, Address(address)),
        auth.opened->Ok_0->ServerAuth_0.responders is None,
        auth.opened->Ok_0->ServerAuth_0.initiator_connected is Some,
    ensures
        ({
            let s = SignalingModel::new_responder(
                permanent_key,
                initiator_pubkey,
                auth_token,
                server,
                initiator,
            );
            let t = s.after(hello).after(auth);
            &&& t.server.handshake_state is Done
            &&& t.signaling_state is PeerHandshake
            &&& t.identity == ClientIdentity::Responder(address)
        }),
{
    let s = SignalingModel::new_responder(
        permanent_key,
        initiator_pubkey,
        auth_token,
        server,
        initiator,
    );
    let key = hello.opened->Ok_0->ServerHello_0;
    server_hello_is_answered(s, hello, key);
    accepted_number_is_kept(s, hello);
    let t = s.after(hello);
    assert(t.server.cookie_pair.theirs == Some(hello.nonce.cookie));
    assert(t.path == s.path);
    assert(t.verdict(auth.nonce) is Accept);
    responder_checks_server_auth(t, auth, auth.opened->Ok_0->ServerAuth_0);
    peer_handshake_follows_server_handshake(t, auth);
}

/// Messages to the peer are numbered one after the other: a second box has the number after
/// that of the first, and both are encrypted with our session key.
pub proof fn task_boxes_count_up(
    s: SignalingModel,
    first: PayloadModel,
    second: PayloadModel,
)
    requires
        s.boxed_for_peer(first) is Ok,
        s.boxed_for_peer(first)->Ok_0.0.boxed_for_peer(second) is Ok,
    ensures
        ({
            let (t, a) = s.boxed_for_peer(first)->Ok_0;
            let (_, b) = t.boxed_for_peer(second)->Ok_0;
            &&& b.nonce.csn.value() == a.nonce.csn.value() + 1
            &&& b.nonce.cookie == a.nonce.cookie
            &&& b.nonce.source == a.nonce.source
            &&& b.nonce.destination == a.nonce.destination
            &&& b.sealing == a.sealing
            &&& a.payload == first
            &&& b.payload == second
            &&& a.sealing matches Sealing::Keys { our_key, .. } && s.session_key == Some(our_key)
        }),
{
    let (t, _) = s.boxed_for_peer(first)->Ok_0;
    next_counts_up(s.task_peer().unwrap().csn_pair.ours);
    next_counts_up(t.task_peer().unwrap().csn_pair.ours);
}

} // verus!
