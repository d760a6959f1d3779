//! Laws of what happens on the connection.

use vstd::prelude::*;

use super::{
    closed_with, decodes_to, first_such, handshake_outcome, handshake_result, replies,
    reported_actions, task_messages, task_outcome, task_result, HandshakeStep,
    TaskStep, WsMessage, WsMessageDecoded,
};
use crate::boxes::OutBox;
use crate::errors::{SaltyError, SaltyFault, SaltyResult};
use crate::protocol::laws::values::{byte_box_layout, is_decimal, nonce_layout};
use crate::protocol::model::SignalingModel;
use crate::protocol::state::ServerStateModel;
use crate::protocol::types::{action_models, ActionModel, HandleAction};
use crate::text::decimal_reads_back;
use crate::CloseCode;

verus! {

/// Whatever it says, a close frame ends the stream with a network error.
pub proof fn close_frames_end_the_stream(msg: WsMessage, result: SaltyResult<WsMessageDecoded>)
    requires
        decodes_to(msg, result),
        msg is Close,
    ensures
        result matches Err(SaltyError::Network(text)) && text@ == "Server message stream ended"@,
{
}

/// Texts and pongs are ignored, and nothing else is.
pub proof fn only_texts_and_pongs_are_ignored(
    msg: WsMessage,
    result: SaltyResult<WsMessageDecoded>,
)
    requires
        decodes_to(msg, result),
    ensures
        result == Ok::<WsMessageDecoded, SaltyError>(WsMessageDecoded::Ignore) <==> msg is Text
            || msg is Pong,
{
}

/// A ping is decoded to a ping with the same payload, and nothing else is decoded to one.
pub proof fn pings_keep_their_payload(
    msg: WsMessage,
    result: SaltyResult<WsMessageDecoded>,
    payload: Vec<u8>,
)
    requires
        decodes_to(msg, result),
    ensures
        result == Ok::<WsMessageDecoded, SaltyError>(WsMessageDecoded::Ping(payload)) <==> msg
            == WsMessage::Ping(payload),
{
}

/// A binary message is decoded to a box exactly if it has room for a nonce. The box then holds
/// the bytes of the message where they belong.
pub proof fn binary_messages_are_boxes(
    msg: WsMessage,
    bytes: Vec<u8>,
    result: SaltyResult<WsMessageDecoded>,
)
    requires
        decodes_to(msg, result),
        msg == WsMessage::Binary(bytes),
    ensures
        bytes@.len() < 24 ==> (result matches Err(SaltyError::Protocol(text)) && text@
            == "decode error: "@ + "message is too short"@),
        bytes@.len() >= 24 ==> (result matches Ok(WsMessageDecoded::ByteBox(bbox)) && {
            let wire = bytes@;
            let nonce = bbox.nonce;
            &&& bbox.bytes@ == wire.skip(24)
            &&& forall|i: int| 0 <= i < 16 ==> #[trigger] wire[i] == nonce.cookie.bytes@[i]
            &&& wire[16] == nonce.source.0
            &&& wire[17] == nonce.destination.0
            &&& wire[18] * 0x100 + wire[19] == nonce.csn.overflow
            &&& wire[20] * 0x100_0000 + wire[21] * 0x1_0000 + wire[22] * 0x100 + wire[23]
                == nonce.csn.sequence
        }),
{
    if let Ok(WsMessageDecoded::ByteBox(bbox)) = result {
        byte_box_layout(bbox);
        nonce_layout(bbox.nonce);
        assert forall|i: int| 0 <= i < 24 && bytes@.len() >= 24 implies bytes@[i]
            == bbox.nonce.encoded()[i] by {
            assert(bytes@.take(24)[i] == bytes@[i]);
        }
    }
}

/// The first action that stops is the one that is found.
pub proof fn first_such_is_first(
    actions: Seq<ActionModel>,
    stops: spec_fn(ActionModel) -> bool,
    i: int,
)
    requires
        0 <= i < actions.len(),
        stops(actions[i]),
        forall|j: int| 0 <= j < i ==> !stops(#[trigger] actions[j]),
    ensures
        first_such(actions, stops) == Some(actions[i]),
    decreases i,
{
    if i > 0 {
        let rest = actions.drop_first();
        assert(!stops(actions[0]));
        assert forall|j: int| 0 <= j < i - 1 implies !stops(#[trigger] rest[j]) by {
            assert(rest[j] == actions[j + 1]);
        }
        first_such_is_first(rest, stops, i - 1);
    }
}

/// Where no action stops, none is found.
pub proof fn first_such_may_be_none(
    actions: Seq<ActionModel>,
    stops: spec_fn(ActionModel) -> bool,
)
    requires
        forall|j: int| 0 <= j < actions.len() ==> !stops(#[trigger] actions[j]),
    ensures
        first_such(actions, stops) is None,
    decreases actions.len(),
{
    if actions.len() > 0 {
        let rest = actions.drop_first();
        assert(!stops(actions[0]));
        assert forall|j: int| 0 <= j < rest.len() implies !stops(#[trigger] rest[j]) by {
            assert(rest[j] == actions[j + 1]);
        }
        first_such_may_be_none(rest, stops);
    }
}

/// An action that sends a box adds that box to what is to be sent, one with a value adds that
/// value to what is for the task, and no other action adds anything.
pub proof fn each_action_adds_its_own(actions: Seq<ActionModel>, action: ActionModel)
    ensures
        replies(Seq::empty()).len() == 0,
        task_messages(Seq::empty()).len() == 0,
        replies(actions.push(action)) == (match action {
            ActionModel::Reply(out) => replies(actions).push(out),
            _ => replies(actions),
        }),
        task_messages(actions.push(action)) == (match action {
            ActionModel::TaskMessage(value) => task_messages(actions).push(value),
            _ => task_messages(actions),
        }),
{
    assert(actions.push(action).drop_last() =~= actions);
}

/// Whether the boxes are those that the actions send, in their order.
pub open spec fn sent_by(boxes: Seq<OutBox>, actions: Seq<HandleAction>) -> bool
    decreases actions.len(),
{
    if actions.len() == 0 {
        boxes.len() == 0
    } else {
        match actions.last() {
            HandleAction::Reply(out) => {
                &&& boxes.len() > 0
                &&& boxes.last().payload@ == out.payload@
                &&& boxes.last().nonce == out.nonce
                &&& boxes.last().sealing == out.sealing
                &&& sent_by(boxes.drop_last(), actions.drop_last())
            },
            _ => sent_by(boxes, actions.drop_last()),
        }
    }
}

/// Whether the values are those that the actions have for the task, in their order.
pub open spec fn told_by(values: Seq<rmpv::Value>, actions: Seq<HandleAction>) -> bool
    decreases actions.len(),
{
    if actions.len() == 0 {
        values.len() == 0
    } else {
        match actions.last() {
            HandleAction::TaskMessage(value) => {
                &&& values.len() > 0
                &&& values.last() == value
                &&& told_by(values.drop_last(), actions.drop_last())
            },
            _ => told_by(values, actions.drop_last()),
        }
    }
}

/// What the models of the boxes say holds of the boxes themselves.
proof fn replies_are_sent(boxes: Seq<OutBox>, actions: Seq<HandleAction>)
    requires
        super::out_box_models(boxes) == replies(action_models(actions)),
    ensures
        sent_by(boxes, actions),
    decreases actions.len(),
{
    let models = super::out_box_models(boxes);
    assert(models.len() == boxes.len());
    if actions.len() > 0 {
        let rest = actions.drop_last();
        assert(action_models(rest) =~= action_models(actions).drop_last());
        assert(action_models(actions).last() == actions.last()@);
        if let HandleAction::Reply(out) = actions.last() {
            assert(models =~= replies(action_models(rest)).push(out@));
            assert(models.last() == boxes.last()@);
            assert(super::out_box_models(boxes.drop_last()) =~= models.drop_last());
            assert(models.drop_last() =~= replies(action_models(rest)));
            replies_are_sent(boxes.drop_last(), rest);
        } else {
            replies_are_sent(boxes, rest);
        }
    }
}

/// What the models of the actions have for the task, the actions have.
proof fn task_messages_are_told(values: Seq<rmpv::Value>, actions: Seq<HandleAction>)
    requires
        values == task_messages(action_models(actions)),
    ensures
        told_by(values, actions),
    decreases actions.len(),
{
    if actions.len() > 0 {
        let rest = actions.drop_last();
        assert(action_models(rest) =~= action_models(actions).drop_last());
        assert(action_models(actions).last() == actions.last()@);
        if let HandleAction::TaskMessage(value) = actions.last() {
            assert(values =~= task_messages(action_models(rest)).push(value));
            assert(values.drop_last() =~= task_messages(action_models(rest)));
            task_messages_are_told(values.drop_last(), rest);
        } else {
            task_messages_are_told(values, rest);
        }
    }
}

/// The actions of which none is for the task make up a step of the handshake: it sends their
/// boxes, and ends the handshake exactly if one of them says so.
pub proof fn handshake_steps_send_all(actions: Seq<HandleAction>, result: SaltyResult<HandshakeStep>)
    requires
        handshake_result(result, handshake_outcome(action_models(actions))),
        forall|j: int|
            0 <= j < actions.len() ==> (#[trigger] actions[j]) is Reply || actions[j] is HandshakeDone,
    ensures
        result matches Ok(step) && {
            &&& sent_by(step.messages@, actions)
            &&& step.handshake_done <==> exists|j: int|
                0 <= j < actions.len() && (#[trigger] actions[j]) is HandshakeDone
        },
{
    let models = action_models(actions);
    let stops = |a: ActionModel| super::for_task(a);
    assert forall|j: int| 0 <= j < models.len() implies !stops(#[trigger] models[j]) by {
        assert(models[j] == actions[j]@);
    }
    first_such_may_be_none(models, stops);
    if let Ok(step) = result {
        replies_are_sent(step.messages@, actions);
        if step.handshake_done {
            let j = choose|j: int| 0 <= j < models.len() && models[j] == ActionModel::HandshakeDone;
            assert(models[j] == actions[j]@);
            assert(actions[j] is HandshakeDone);
        }
        if exists|j: int| 0 <= j < actions.len() && (#[trigger] actions[j]) is HandshakeDone {
            let j = choose|j: int|
                0 <= j < actions.len() && (#[trigger] actions[j]) is HandshakeDone;
            assert(models[j] == actions[j]@);
        }
    }
}

/// The first action for the task, if there is one, lets a step of the handshake fail, and the
/// error tells which kind it was.
pub proof fn handshake_steps_have_no_task(
    actions: Seq<HandleAction>,
    result: SaltyResult<HandshakeStep>,
    i: int,
)
    requires
        handshake_result(result, handshake_outcome(action_models(actions))),
        0 <= i < actions.len(),
        actions[i] is TaskMessage || actions[i] is TaskClose,
        forall|j: int|
            0 <= j < i ==> (#[trigger] actions[j]) is Reply || actions[j] is HandshakeDone,
    ensures
        result matches Err(SaltyError::Crash(text)) && text@ == (if actions[i] is TaskMessage {
            "Received task message during handshake"@
        } else {
            "Received close message during handshake"@
        }),
{
    let models = action_models(actions);
    let stops = |a: ActionModel| super::for_task(a);
    assert forall|j: int| 0 <= j < i implies !stops(#[trigger] models[j]) by {
        assert(models[j] == actions[j]@);
    }
    assert(models[i] == actions[i]@);
    first_such_is_first(models, stops, i);
}

/// The first close message ends the task loop with its own reason, whichever that is. There
/// must be a task to be told.
pub proof fn task_is_told_the_reason(
    actions: Seq<HandleAction>,
    task_set: bool,
    result: SaltyResult<TaskStep>,
    i: int,
    reason: CloseCode,
)
    requires
        task_result(result, task_outcome(action_models(actions), task_set)),
        0 <= i < actions.len(),
        actions[i] == HandleAction::TaskClose(reason),
        forall|j: int| 0 <= j < i ==> (#[trigger] actions[j]) is Reply || actions[j] is TaskMessage,
    ensures
        task_set ==> result == Ok::<TaskStep, SaltyError>(TaskStep::Close(reason)),
        !task_set ==> (result matches Err(SaltyError::Crash(text)) && text@ == "Task not set"@),
{
    let models = action_models(actions);
    let stops = |a: ActionModel| super::ends_task_loop(a);
    assert forall|j: int| 0 <= j < i implies !stops(#[trigger] models[j]) by {
        assert(models[j] == actions[j]@);
    }
    assert(models[i] == actions[i]@);
    first_such_is_first(models, stops, i);
}

/// Close messages with different reasons end the task loop differently.
pub proof fn different_reasons_give_different_steps(
    first: Seq<HandleAction>,
    second: Seq<HandleAction>,
    a: SaltyResult<TaskStep>,
    b: SaltyResult<TaskStep>,
)
    requires
        task_result(a, task_outcome(action_models(first), true)),
        task_result(b, task_outcome(action_models(second), true)),
        first.len() > 0,
        second.len() > 0,
        first[0] is TaskClose,
        second[0] is TaskClose,
        first[0] != second[0],
    ensures
        a is Ok,
        b is Ok,
        a != b,
{
    task_is_told_the_reason(first, true, a, 0, first[0]->TaskClose_0);
    task_is_told_the_reason(second, true, b, 0, second[0]->TaskClose_0);
}

/// The handshake cannot end in the task loop.
pub proof fn task_loop_has_no_handshake(
    actions: Seq<HandleAction>,
    task_set: bool,
    result: SaltyResult<TaskStep>,
    i: int,
)
    requires
        task_result(result, task_outcome(action_models(actions), task_set)),
        0 <= i < actions.len(),
        actions[i] is HandshakeDone,
        forall|j: int| 0 <= j < i ==> (#[trigger] actions[j]) is Reply || actions[j] is TaskMessage,
    ensures
        result matches Err(SaltyError::Crash(text)) && text@
            == "Got HandleAction::HandshakeDone in task loop"@,
{
    let models = action_models(actions);
    let stops = |a: ActionModel| super::ends_task_loop(a);
    assert forall|j: int| 0 <= j < i implies !stops(#[trigger] models[j]) by {
        assert(models[j] == actions[j]@);
    }
    assert(models[i] == actions[i]@);
    first_such_is_first(models, stops, i);
}

/// Where nothing ends the task loop, all boxes are sent and all values are for the task,
/// whether there is one or not.
pub proof fn task_steps_forward_all(
    actions: Seq<HandleAction>,
    task_set: bool,
    result: SaltyResult<TaskStep>,
)
    requires
        task_result(result, task_outcome(action_models(actions), task_set)),
        forall|j: int|
            0 <= j < actions.len() ==> (#[trigger] actions[j]) is Reply || actions[j] is TaskMessage,
    ensures
        result matches Ok(TaskStep::Forward { outgoing, incoming }) && {
            &&& sent_by(outgoing@, actions)
            &&& told_by(incoming@, actions)
        },
{
    let models = action_models(actions);
    let stops = |a: ActionModel| super::ends_task_loop(a);
    assert forall|j: int| 0 <= j < models.len() implies !stops(#[trigger] models[j]) by {
        assert(models[j] == actions[j]@);
    }
    first_such_may_be_none(models, stops);
    if let Ok(TaskStep::Forward { outgoing, incoming }) = result {
        replies_are_sent(outgoing@, actions);
        task_messages_are_told(incoming@, actions);
    }
}

/// The failure of the handshake is reported as a violation of the protocol, with its text. As
/// long as there is none, the actions are reported as they are.
pub proof fn failures_are_reported(after: SignalingModel, actions: Seq<ActionModel>)
    ensures
        match after.server.handshake_state {
            ServerStateModel::Failure(msg) => reported_actions(after, actions) == Err::<
                Seq<ActionModel>,
                SaltyFault,
            >(SaltyFault::Protocol(msg)),
            _ => reported_actions(after, actions) == Ok::<Seq<ActionModel>, SaltyFault>(actions),
        },
{
}

/// How the end of the connection is described: with the name and number of a close code that
/// is known, and with the number of any other. The reason follows in brackets, if there is one.
pub proof fn close_codes_are_described(status_code: u16, code: CloseCode, reason: Seq<char>)
    ensures
        ({
            let ending = if reason == Seq::<char>::empty() {
                Seq::<char>::empty()
            } else {
                " ("@ + reason + ")"@
            };
            &&& exists|n: Seq<char>| #[trigger]
                is_decimal(n, code.number() as int) && closed_with(code.number(), reason)
                    == "Server closed connection with "@ + ("close code "@ + (code.name() + " ("@
                    + n + ")"@)) + ending
            &&& (forall|c: CloseCode| c.number() != status_code) ==> exists|n: Seq<char>| #[trigger]
                is_decimal(n, status_code as int) && closed_with(status_code, reason)
                    == "Server closed connection with "@ + ("unknown close code "@ + n) + ending
        }),
{
    reveal_strlit("");
    assert(""@ =~= Seq::<char>::empty());
    assert(reason.len() == 0 ==> reason =~= Seq::<char>::empty());
    decimal_reads_back(code.number() as nat);
    decimal_reads_back(status_code as nat);
    assert(is_decimal(crate::text::decimal(code.number() as nat), code.number() as int));
    assert(is_decimal(crate::text::decimal(status_code as nat), status_code as int));
    assert(forall|c: CloseCode| c.number() == code.number() ==> c == code);
}

} // verus!
