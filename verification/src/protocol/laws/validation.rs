//! Laws of the validation of nonces.

use vstd::prelude::*;

use crate::protocol::context::{InitiatorContext, ResponderContext};
use crate::protocol::cookie::{Cookie, CookiePair};
use crate::protocol::csn::{CombinedSequencePair, CombinedSequenceSnapshot};
use crate::protocol::messages::MessageModel;
use crate::protocol::model::{PathModel, SignalingModel, Verdict};
use crate::protocol::nonce::Nonce;
use crate::protocol::types::{Address, ClientIdentity, Identity};

verus! {

/// The address of a client with the identity.
pub open spec fn address_of(identity: ClientIdentity) -> u8 {
    match identity {
        ClientIdentity::Unknown => 0,
        ClientIdentity::Initiator => 1,
        ClientIdentity::Responder(address) => address,
    }
}

/// Whether a client without an identity may be assigned one by the message.
pub open spec fn may_assign(s: SignalingModel, nonce: Nonce) -> bool {
    s.identity is Unknown && !(s.server.handshake_state is New) && nonce.destination.0 != 0
}

/// Our identity once a message with the nonce has come in: an initiator takes 0x01 and a
/// responder what is from 0x02 on, if it has none yet and the server has greeted it.
pub open spec fn identity_with(s: SignalingModel, nonce: Nonce) -> ClientIdentity {
    if may_assign(s, nonce) && s.path is Initiator && nonce.destination.0 == 1 {
        ClientIdentity::Initiator
    } else if may_assign(s, nonce) && s.path is Responder && nonce.destination.0 >= 2 {
        ClientIdentity::Responder(nonce.destination.0)
    } else {
        s.identity
    }
}

/// Whether the message is addressed to us.
pub open spec fn is_for_us(s: SignalingModel, nonce: Nonce) -> bool {
    nonce.destination.0 == address_of(identity_with(s, nonce))
}

/// Whether we take messages from the sender at all.
pub open spec fn takes_from(s: SignalingModel, nonce: Nonce) -> bool {
    let identity = identity_with(s, nonce);
    ||| nonce.source.0 == 0
    ||| nonce.source.0 == 1 && identity is Responder
    ||| nonce.source.0 >= 2 && identity is Initiator
}

/// What is remembered of the peer at the address, if it is known: numbers, cookies, name.
pub open spec fn remembered(s: SignalingModel, address: u8) -> Option<
    (CombinedSequencePair, CookiePair, Seq<char>),
> {
    if address == 0 {
        Some((s.server.csn_pair, s.server.cookie_pair, "server"@))
    } else {
        match s.path {
            PathModel::Responder { initiator } => if address == 1 {
                Some((initiator.csn_pair, initiator.cookie_pair, "initiator"@))
            } else {
                None
            },
            PathModel::Initiator { responders, .. } => if address >= 2
                && responders.contains_key(address) {
                Some(
                    (
                        responders[address].csn_pair,
                        responders[address].cookie_pair,
                        Identity::Responder(responders[address].address.0).name(),
                    ),
                )
            } else {
                None
            },
        }
    }
}

/// Whether the number continues where the sender stopped.
pub open spec fn number_continues(
    last: Option<CombinedSequenceSnapshot>,
    csn: CombinedSequenceSnapshot,
) -> bool {
    match last {
        Some(last) => csn.value() == last.value() + 1,
        None => csn.overflow == 0,
    }
}

/// Whether the cookie is the sender's, and not ours.
pub open spec fn cookie_continues(cookies: CookiePair, cookie: Cookie) -> bool {
    match cookies.theirs {
        Some(theirs) => cookie == theirs,
        None => cookie != cookies.ours,
    }
}

/// A nonce is accepted exactly if it is addressed to us, comes from a known peer that we take
/// messages from, and continues that peer's numbers and cookie.
pub proof fn nonce_is_accepted_exactly_if_in_order(s: SignalingModel, nonce: Nonce)
    ensures
        s.verdict(nonce) is Accept <==> {
            &&& is_for_us(s, nonce)
            &&& takes_from(s, nonce)
            &&& remembered(s, nonce.source.0) matches Some((numbers, cookies, _))
            &&& number_continues(numbers.theirs, nonce.csn)
            &&& cookie_continues(cookies, nonce.cookie)
        },
{
}

/// A message is discarded exactly if it is addressed to us but comes from someone that we do
/// not take messages from.
pub proof fn nonce_is_discarded_exactly_if_from_others(s: SignalingModel, nonce: Nonce)
    ensures
        s.verdict(nonce) is Drop <==> is_for_us(s, nonce) && !takes_from(s, nonce),
        s.verdict(nonce) is Drop ==> s.verdict(nonce) == Verdict::Drop(
            "bad source: "@ + nonce.source.name() + " (our identity is "@ + identity_with(
                s,
                nonce,
            ).name() + ")"@,
        ),
{
}

/// Why a message that is not addressed to us is refused.
pub proof fn bad_destinations_are_told(s: SignalingModel, nonce: Nonce)
    requires
        !is_for_us(s, nonce),
    ensures
        may_assign(s, nonce) ==> s.verdict(nonce) == Verdict::Fail(
            "cannot assign address "@ + nonce.destination.name() + " to a client with role "@ + (
            if s.path is Initiator {
                "Initiator"@
            } else {
                "Responder"@
            }),
        ),
        !may_assign(s, nonce) ==> s.verdict(nonce) == Verdict::Fail(
            "bad destination: "@ + nonce.destination.name() + " (our identity is "@
                + s.identity.name() + ")"@,
        ),
{
}

/// Why a message from a sender that is not known is refused.
pub proof fn unknown_senders_are_told(s: SignalingModel, nonce: Nonce)
    requires
        is_for_us(s, nonce),
        takes_from(s, nonce),
        remembered(s, nonce.source.0) is None,
    ensures
        s.verdict(nonce) == Verdict::Fail(
            "could not find responder with address "@ + crate::text::decimal(
                nonce.source.0 as nat,
            ),
        ),
{
}

/// Why a message from a known peer is refused.
pub proof fn bad_numbers_and_cookies_are_told(s: SignalingModel, nonce: Nonce)
    requires
        is_for_us(s, nonce),
        takes_from(s, nonce),
        remembered(s, nonce.source.0) is Some,
    ensures
        ({
            let (numbers, cookies, who) = remembered(s, nonce.source.0).unwrap();
            let verdict = s.verdict(nonce);
            let number = nonce.csn.value();
            &&& (numbers.theirs matches Some(last) && number < last.value()) ==> verdict
                == Verdict::Fail(who + " CSN is lower than last time"@)
            &&& (numbers.theirs matches Some(last) && number == last.value()) ==> verdict
                == Verdict::Fail(who + " CSN hasn't been incremented"@)
            &&& (numbers.theirs matches Some(last) && number > last.value() + 1) ==> verdict
                == Verdict::Fail(who + " CSN has been incremented by more than 1"@)
            &&& numbers.theirs is None && nonce.csn.overflow != 0 ==> verdict == Verdict::Fail(
                "first message from "@ + who + " must have set the overflow number to 0"@,
            )
            &&& number_continues(numbers.theirs, nonce.csn) && cookies.theirs is None
                && nonce.cookie == cookies.ours ==> verdict == Verdict::Fail(
                "cookie from "@ + who + " is identical to our own cookie"@,
            )
            &&& number_continues(numbers.theirs, nonce.csn) && cookies.theirs is Some
                && cookies.theirs != Some(nonce.cookie) ==> verdict == Verdict::Fail(
                "cookie from "@ + who + " has changed"@,
            )
        }),
{
}

/// What is remembered of the sender once a nonce was looked at: its number if it continues, and
/// its cookie if both do. Our own side stays.
pub proof fn sender_is_remembered(s: SignalingModel, nonce: Nonce)
    requires
        is_for_us(s, nonce),
        takes_from(s, nonce),
        remembered(s, nonce.source.0) is Some,
    ensures
        ({
            let (numbers, cookies, who) = remembered(s, nonce.source.0).unwrap();
            let number_is_right = number_continues(numbers.theirs, nonce.csn);
            let both_are_right = number_is_right && cookie_continues(cookies, nonce.cookie);
            remembered(s.after_nonce(nonce), nonce.source.0) matches Some((n, c, w)) && {
                &&& n.ours == numbers.ours
                &&& n.theirs == if number_is_right {
                    Some(nonce.csn)
                } else {
                    numbers.theirs
                }
                &&& c.ours == cookies.ours
                &&& c.theirs == if both_are_right {
                    Some(nonce.cookie)
                } else {
                    cookies.theirs
                }
                &&& w == who
            }
        }),
{
}

/// What is remembered of others does not change when a nonce is looked at, nor is anything of
/// the sender if the message is not for us or not taken.
pub proof fn others_are_left_alone(s: SignalingModel, nonce: Nonce, address: u8)
    requires
        address != nonce.source.0 || !is_for_us(s, nonce) || !takes_from(s, nonce),
    ensures
        remembered(s.after_nonce(nonce), address) == remembered(s, address),
{
}

/// Looking at a nonce changes our identity at most, and what is remembered of the sender.
pub proof fn nonce_changes_nothing_else(s: SignalingModel, nonce: Nonce)
    ensures
        ({
            let t = s.after_nonce(nonce);
            &&& t.identity == identity_with(s, nonce)
            &&& t.signaling_state == s.signaling_state
            &&& t.permanent_key == s.permanent_key
            &&& t.session_key == s.session_key
            &&& t.auth_token == s.auth_token
            &&& t.ping_interval == s.ping_interval
            &&& t.server.handshake_state == s.server.handshake_state
            &&& t.server.permanent_key == s.server.permanent_key
            &&& t.server.session_key == s.server.session_key
            &&& s.path matches PathModel::Responder { initiator } ==> t.path is Responder && {
                let other = t.path->initiator;
                other == InitiatorContext {
                    csn_pair: other.csn_pair,
                    cookie_pair: other.cookie_pair,
                    ..initiator
                }
            }
            &&& s.path matches PathModel::Initiator { responders, responder } ==> {
                &&& t.path is Initiator
                &&& t.path->responder == responder
                &&& t.path->responders.dom() == responders.dom()
                &&& forall|a: u8| #[trigger]
                    responders.contains_key(a) ==> t.path->responders[a] == (ResponderContext {
                        csn_pair: t.path->responders[a].csn_pair,
                        cookie_pair: t.path->responders[a].cookie_pair,
                        ..responders[a]
                    })
            }
        }),
{
    let t = s.after_nonce(nonce);
    if let PathModel::Initiator { responders, .. } = s.path {
        assert(t.path->responders.dom() =~= responders.dom());
    }
}

/// A message reaches a responder from the initiator exactly if it comes from 0x01 and is
/// addressed to the responder's identity, be it only assigned by the message.
pub proof fn initiator_reaches_responders(s: SignalingModel, nonce: Nonce)
    ensures
        s.from_initiator(nonce) <==> {
            &&& nonce.source.0 == 1
            &&& identity_with(s, nonce) == ClientIdentity::Responder(nonce.destination.0)
        },
{
}

/// A cookie is lacking exactly if an accepted first message is a server-hello of someone else
/// than the server, while neither the server's key nor its cookie is known.
pub proof fn cookie_is_lacking_exactly_if(
    s: SignalingModel,
    nonce: Nonce,
    opened: Result<MessageModel, Seq<char>>,
)
    ensures
        s.lacks_cookie(nonce, opened) <==> {
            &&& s.verdict(nonce) is Accept
            &&& nonce.source.0 != 0
            &&& s.server.handshake_state is New
            &&& s.server.permanent_key is None
            &&& s.server.cookie_pair.theirs is None
            &&& opened matches Ok(MessageModel::ServerHello(_))
        },
{
}

/// Well-formed is a signaling that knows no responder before the server has named them. The
/// identity fits if it is that of the role.
pub proof fn invariants_are_known(s: SignalingModel)
    ensures
        s.wf() <==> (s.signaling_state is ServerHandshake && s.path is Initiator
            ==> s.path->responders.dom() =~= Set::<u8>::empty()),
        s.identity_fits() <==> {
            ||| s.identity is Unknown
            ||| s.path is Initiator && address_of(s.identity) == 1
            ||| s.path is Responder && address_of(s.identity) >= 2
        },
{
    if let PathModel::Initiator { responders, .. } = s.path {
        if responders.dom() =~= Set::<u8>::empty() {
            assert(responders =~= Map::<u8, ResponderContext>::empty());
        }
    }
}

/// Which peer is meant by an address: the server by 0x00, the initiator by 0x01, as a responder
/// sees it, and a responder that is known by its own address, as the initiator sees it. What is
/// known of the peer is what its context holds.
pub proof fn addresses_lead_to_peers(s: SignalingModel, address: Address)
    ensures
        match s.peer_at(address) {
            Some(peer) => {
                ||| {
                    &&& address.0 == 0
                    &&& peer.identity is Server
                    &&& peer.permanent_key == s.server.permanent_key
                    &&& peer.session_key == s.server.session_key
                    &&& peer.csn_pair == s.server.csn_pair
                    &&& peer.cookie_pair == s.server.cookie_pair
                }
                ||| {
                    &&& address.0 == 1
                    &&& s.path matches PathModel::Responder { initiator }
                    &&& peer.identity is Initiator
                    &&& peer.permanent_key == Some(initiator.permanent_key)
                    &&& peer.session_key == initiator.session_key
                    &&& peer.csn_pair == initiator.csn_pair
                    &&& peer.cookie_pair == initiator.cookie_pair
                }
                ||| {
                    &&& address.0 >= 2
                    &&& s.path matches PathModel::Initiator { responders, .. }
                    &&& responders.contains_key(address.0)
                    &&& peer.identity == Identity::Responder(responders[address.0].address.0)
                    &&& peer.permanent_key == responders[address.0].permanent_key
                    &&& peer.session_key == responders[address.0].session_key
                    &&& peer.csn_pair == responders[address.0].csn_pair
                    &&& peer.cookie_pair == responders[address.0].cookie_pair
                }
            },
            None => match s.path {
                PathModel::Initiator { responders, .. } => {
                    address.0 == 1 || address.0 >= 2 && !responders.contains_key(address.0)
                },
                PathModel::Responder { .. } => address.0 >= 2,
            },
        },
{
}

} // verus!
