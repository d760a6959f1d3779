//! Laws of the boxes that a task sends to the peer.

use vstd::prelude::*;

use super::handshake::{is_nonce, last_number};
use super::validation::address_of;
use super::Incoming;
use crate::boxes::{OutBox, PayloadModel, Sealing};
use crate::crypto::PublicKey;
use crate::errors::{SaltyError, SignalingError, SignalingFault};
use crate::protocol::context::{InitiatorContext, ResponderContext};
use crate::protocol::cookie::CookiePair;
use crate::protocol::csn::{next_counts_up, CombinedSequencePair};
use crate::protocol::model::{PathModel, SignalingModel};
use crate::protocol::types::Address;
use crate::protocol::Signaling;
use crate::{ClientModel, SaltyClient};

verus! {

/// Whether nothing came of boxing the payload but this crash.
pub open spec fn crashes(
    before: SignalingModel,
    after: SignalingModel,
    result: Result<OutBox, SignalingError>,
    text: Seq<char>,
) -> bool {
    &&& after == before
    &&& result matches Err(SignalingError::Crash(msg))
    &&& msg@ == text
}

/// What is known of the peer that a box goes to.
pub struct Receiver {
    pub address: u8,
    pub session_key: Option<PublicKey>,
    pub csn_pair: CombinedSequencePair,
    pub cookie_pair: CookiePair,
}

/// Whether the payload is boxed for the receiver: from us, with our cookie and the next number,
/// and encrypted with our session key for the receiver's. Otherwise the result tells what is
/// missing. `left` is what is known of the receiver's numbers after that.
pub open spec fn boxed_for(
    before: SignalingModel,
    to: Receiver,
    left: CombinedSequencePair,
    payload: PayloadModel,
    result: Result<OutBox, SignalingError>,
) -> bool {
    let number = to.csn_pair.ours.value();
    match (before.session_key, to.session_key) {
        (None, _) => {
            &&& left == to.csn_pair
            &&& result matches Err(SignalingError::Crash(msg))
            &&& msg@ == "Missing session keypair"@
        },
        (Some(_), None) => {
            &&& left == to.csn_pair
            &&& result matches Err(SignalingError::Crash(msg))
            &&& msg@ == "Missing session key of the peer"@
        },
        (Some(our_key), Some(their_key)) => if number == last_number() {
            &&& left == to.csn_pair
            &&& result matches Err(SignalingError::CsnOverflow)
        } else {
            &&& left.theirs == to.csn_pair.theirs
            &&& left.ours.value() == number + 1
            &&& result matches Ok(out)
            &&& out.payload@ == payload
            &&& out.sealing == Sealing::Keys { our_key, their_key }
            &&& is_nonce(
                out.nonce,
                to.cookie_pair.ours,
                address_of(before.identity),
                to.address,
                number + 1,
            )
        },
    }
}

/// Nothing is boxed for the peer before the task has taken over.
pub proof fn nothing_is_boxed_before_the_task(
    before: SignalingModel,
    after: SignalingModel,
    payload: PayloadModel,
    result: Result<OutBox, SignalingError>,
)
    requires
        Signaling::boxed_model(before, after, payload, result),
        !(before.signaling_state is Task),
    ensures
        crashes(before, after, result, "Signaling is not in task state"@),
{
}

/// An initiator boxes for the responder that was selected, with what is known of that very
/// responder, and nothing of the other ones is used or changed.
pub proof fn initiator_boxes_for_selected_responder(
    before: SignalingModel,
    after: SignalingModel,
    payload: PayloadModel,
    result: Result<OutBox, SignalingError>,
    responders: Map<u8, ResponderContext>,
    responder: Option<Address>,
)
    requires
        Signaling::boxed_model(before, after, payload, result),
        before.signaling_state is Task,
        before.path == (PathModel::Initiator { responders, responder }),
    ensures
        match responder {
            None => crashes(before, after, result, "No peer selected"@),
            Some(address) => if !responders.contains_key(address.0) {
                crashes(before, after, result, "No peer selected"@)
            } else {
                let context = responders[address.0];
                &&& after.path is Initiator
                &&& after.path->responders.contains_key(address.0)
                &&& after.path->responders == responders.insert(
                    address.0,
                    ResponderContext {
                        csn_pair: after.path->responders[address.0].csn_pair,
                        ..context
                    },
                )
                &&& after == (SignalingModel {
                    path: PathModel::Initiator {
                        responders: after.path->responders,
                        responder,
                    },
                    ..before
                })
                &&& boxed_for(
                    before,
                    Receiver {
                        address: context.address.0,
                        session_key: context.session_key,
                        csn_pair: context.csn_pair,
                        cookie_pair: context.cookie_pair,
                    },
                    after.path->responders[address.0].csn_pair,
                    payload,
                    result,
                )
            },
        },
{
    if let Some(address) = responder {
        if responders.contains_key(address.0) {
            let context = responders[address.0];
            next_counts_up(context.csn_pair.ours);
            assert(responders.insert(address.0, context) =~= responders);
        }
    }
}

/// A responder boxes for the initiator, with what is known of the initiator.
pub proof fn responder_boxes_for_initiator(
    before: SignalingModel,
    after: SignalingModel,
    payload: PayloadModel,
    result: Result<OutBox, SignalingError>,
    initiator: InitiatorContext,
)
    requires
        Signaling::boxed_model(before, after, payload, result),
        before.signaling_state is Task,
        before.path == (PathModel::Responder { initiator }),
    ensures
        after.path is Responder,
        after == (SignalingModel {
            path: PathModel::Responder {
                initiator: InitiatorContext {
                    csn_pair: after.path->initiator.csn_pair,
                    ..initiator
                },
            },
            ..before
        }),
        boxed_for(
            before,
            Receiver {
                address: 1,
                session_key: initiator.session_key,
                csn_pair: initiator.csn_pair,
                cookie_pair: initiator.cookie_pair,
            },
            after.path->initiator.csn_pair,
            payload,
            result,
        ),
{
    next_counts_up(initiator.csn_pair.ours);
}

/// The session key of the client with the address, as far as it is known.
pub open spec fn session_key_at(s: SignalingModel, address: u8) -> Option<PublicKey> {
    match s.path {
        PathModel::Initiator { responders, .. } => if responders.contains_key(address) {
            responders[address].session_key
        } else {
            None
        },
        PathModel::Responder { initiator } => if address == 1 {
            initiator.session_key
        } else {
            None
        },
    }
}

/// Every known responder is known under its own address.
pub open spec fn addresses_agree(s: SignalingModel) -> bool {
    s.path matches PathModel::Initiator { responders, .. } ==> forall|a: u8| #[trigger]
        responders.contains_key(a) ==> responders[a].address.0 == a
}

/// In either role, a box for the peer is encrypted with our session key pair and the session
/// key of the very client that its nonce is addressed to.
pub proof fn boxes_are_encrypted_for_their_receiver(s: SignalingModel, payload: PayloadModel)
    requires
        s.boxed_for_peer(payload) is Ok,
        addresses_agree(s),
    ensures
        ({
            let (_, out) = s.boxed_for_peer(payload)->Ok_0;
            &&& out.payload == payload
            &&& out.nonce.source.0 == address_of(s.identity)
            &&& out.sealing matches Sealing::Keys { our_key, their_key }
            &&& s.session_key == Some(our_key)
            &&& session_key_at(s, out.nonce.destination.0) == Some(their_key)
        }),
{
}

/// That every responder is known under its own address holds from the start, and stays so
/// whatever comes in and whatever is sent.
pub proof fn addresses_stay_in_agreement(
    s: SignalingModel,
    msg: Incoming,
    payload: PayloadModel,
)
    ensures
        s.path is Responder ==> addresses_agree(s),
        s.path matches PathModel::Initiator { responders, .. } ==> (responders == Map::<
            u8,
            ResponderContext,
        >::empty() ==> addresses_agree(s)),
        addresses_agree(s) ==> addresses_agree(s.after(msg)),
        addresses_agree(s) ==> (s.boxed_for_peer(payload) matches Ok((t, _)) ==> addresses_agree(
            t,
        )),
{
}

/// A client reports what its signaling gave, and changes nothing else. An error that its callers
/// do not know is unexpected.
pub proof fn clients_report_boxes<T>(
    before: ClientModel<T>,
    after: ClientModel<T>,
    payload: PayloadModel,
    result: Result<OutBox, SaltyError>,
)
    requires
        SaltyClient::<T>::boxed_model(before, after, payload, result),
    ensures
        after.tasks == before.tasks,
        after.task == before.task,
        match before.signaling.boxed_for_peer(payload) {
            Ok((signaling, out)) => {
                &&& after.signaling == signaling
                &&& result matches Ok(o)
                &&& o.payload@ == out.payload
                &&& o.nonce == out.nonce
                &&& o.sealing == out.sealing
            },
            Err(SignalingFault::CsnOverflow) => {
                &&& after.signaling == before.signaling
                &&& result matches Err(SaltyError::Crash(msg))
                &&& msg@ == "Unexpected signaling error: "@ + "CSN overflow"@
            },
            Err(SignalingFault::Crash(text)) => {
                &&& after.signaling == before.signaling
                &&& result matches Err(SaltyError::Crash(msg))
                &&& msg@ == text
            },
            Err(_) => false,
        },
{
}

/// A box that signaling could make is the one that the model tells.
pub proof fn signaling_reports_boxes(
    before: SignalingModel,
    after: SignalingModel,
    payload: PayloadModel,
    result: Result<OutBox, SignalingError>,
)
    requires
        Signaling::boxed_model(before, after, payload, result),
    ensures
        match before.boxed_for_peer(payload) {
            Ok((signaling, out)) => {
                &&& after == signaling
                &&& result matches Ok(o)
                &&& o.payload@ == out.payload
                &&& o.nonce == out.nonce
                &&& o.sealing == out.sealing
            },
            Err(_) => after == before && result is Err,
        },
{
}

} // verus!
