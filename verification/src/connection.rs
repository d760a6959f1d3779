//! What happens on the connection to the server.
//!
//! The functions here decide what to do with what came in. Receiving and sending is left to
//! the embedding application.

use vstd::prelude::*;
use vstd::string::*;

use crate::boxes::{ByteBox, OutBox, OutBoxModel};
use crate::errors::{SaltyError, SaltyFault, SaltyResult, SignalingFault};
use crate::host::readable;
use crate::protocol::laws::{only_client_hello_is_plain, Incoming};
use crate::protocol::messages::Message;
use crate::protocol::model::{Fresh, SignalingModel};
use crate::protocol::nonce::NONCE_LENGTH;
use crate::protocol::opened_model;
use crate::protocol::state::ServerStateModel;
use crate::protocol::types::{action_models, ActionModel, HandleAction};
use crate::protocol::SUBPROTOCOL;
use crate::text::decimal_text;
use crate::{ClientModel, CloseCode, SaltyClient};

pub mod laws;

verus! {

/// Names the outcome of `Url::parse`: the serialization of the URL that was read from the
/// text, or the text of the error.
pub uninterp spec fn url_parsed(url: Seq<char>) -> Result<Seq<char>, Seq<char>>;

/// Reads a URL with `websocket::client::Url::parse`. The contract gives the outcome a name: it
/// depends on the text alone, and is either the serialization of the URL or what the
/// error shows.
///
/// Texts that are not readable are left out: on some of them the call panics where arithmetic is
/// checked for overflow. It counts in 32 bits while it turns a label of the host name into
/// Punycode, and while it looks for a user name.
#[verifier::external_body]
fn read_url(url: &str) -> (result: Result<String, String>)
    requires
        readable(url@),
    ensures
        match result {
            Ok(serialized) => url_parsed(url@) == Ok::<Seq<char>, Seq<char>>(serialized@),
            Err(msg) => url_parsed(url@) == Err::<Seq<char>, Seq<char>>(msg@),
        },
{
    websocket::client::Url::parse(url).map(|u| u.into_string()).map_err(|e| e.to_string())
}

/// Turn the outcome of reading a URL into a result of the library.
pub fn url_result(parsed: Result<String, String>) -> (result: SaltyResult<String>)
    ensures
        match parsed {
            Ok(url) => result matches Ok(u) && u@ == url@,
            Err(msg) => result matches Err(e) && e@ == SaltyFault::Decode(
                "Could not parse URL: "@ + msg@,
            ),
        },
{
    match parsed {
        Ok(url) => Ok(url),
        Err(msg) => Err(
            SaltyError::Decode("Could not parse URL: ".to_string().concat(msg.as_str())),
        ),
    }
}

/// Check the URL of a server, and return it in its normal form.
pub fn parse_url(url: &str) -> (result: SaltyResult<String>)
    requires
        readable(url@),
    ensures
        match url_parsed(url@) {
            Ok(normal) => result matches Ok(u) && u@ == normal,
            Err(text) => result matches Err(e) && e@ == SaltyFault::Decode(
                "Could not parse URL: "@ + text,
            ),
        },
{
    url_result(read_url(url))
}

/// The error for a connection that could not be established.
pub fn connect_error(error: &str, cause: Option<&str>) -> (e: SaltyError)
    ensures
        e@ == SaltyFault::Network(
            match cause {
                Some(c) => "Could not connect to server: "@ + error@ + ": "@ + c@,
                None => "Could not connect to server: "@ + error@,
            },
        ),
{
    let text = "Could not connect to server: ".to_string().concat(error);
    match cause {
        Some(cause) => SaltyError::Network(text.concat(": ").concat(cause)),
        None => SaltyError::Network(text),
    }
}

/// Verify that the server chose our subprotocol and no other.
pub fn check_subprotocol(chosen: Option<Vec<String>>) -> (result: SaltyResult<()>)
    ensures
        match chosen {
            Some(protocols) => if protocols@.len() == 1 && protocols@[0]@ == SUBPROTOCOL@ {
                result is Ok
            } else {
                result matches Err(e) && e@ == SaltyFault::Protocol(
                    "More than one websocket subprotocol chosen by server"@,
                )
            },
            None => result matches Err(e) && e@ == SaltyFault::Protocol(
                "Websocket subprotocol not accepted by server"@,
            ),
        },
{
    match chosen {
        Some(protocols) => {
            if protocols.len() == 1 && protocols[0] == SUBPROTOCOL.to_string() {
                Ok(())
            } else {
                Err(
                    SaltyError::Protocol(
                        "More than one websocket subprotocol chosen by server".to_string(),
                    ),
                )
            }
        },
        None => Err(
            SaltyError::Protocol("Websocket subprotocol not accepted by server".to_string()),
        ),
    }
}

/// Why a websocket connection is closed.
#[derive(Debug, PartialEq, Eq)]
pub struct CloseFrame {
    pub status_code: u16,
    pub reason: String,
}

/// The frame that we close the connection with. Without a reason, we are going away.
pub fn close_frame(reason: Option<CloseCode>) -> (frame: CloseFrame)
    ensures
        match reason {
            Some(code) => frame.status_code == code.number() && frame.reason@ == code.shown(),
            None => frame.status_code == 1001 && frame.reason@ == Seq::<char>::empty(),
        },
{
    match reason {
        Some(code) => CloseFrame { status_code: code.as_number(), reason: code.text() },
        None => CloseFrame { status_code: 1001, reason: String::new() },
    }
}

/// What the log says of the close code that the server closed the connection with.
pub open spec fn closed_with(status_code: u16, reason: Seq<char>) -> Seq<char> {
    let code = if exists|c: CloseCode| c.number() == status_code {
        "close code "@ + (choose|c: CloseCode| c.number() == status_code).shown()
    } else {
        "unknown close code "@ + crate::text::decimal(status_code as nat)
    };
    "Server closed connection with "@ + code + if reason.len() == 0 {
        ""@
    } else {
        " ("@ + reason + ")"@
    }
}

/// What the log says when the server closed the connection.
pub fn describe_close(frame: &Option<CloseFrame>) -> (text: String)
    ensures
        match frame {
            Some(f) => text@ == closed_with(f.status_code, f.reason@),
            None => text@ == "Server closed connection without close code"@,
        },
{
    match frame {
        Some(frame) => {
            let text = "Server closed connection with ".to_string();
            let text = match CloseCode::from_number(frame.status_code) {
                Some(code) => {
                    assert(forall|c: CloseCode| c.number() == code.number() ==> c == code);
                    text.concat("close code ").concat(code.text().as_str())
                },
                None => text.concat("unknown close code ").concat(
                    decimal_text(frame.status_code).as_str(),
                ),
            };
            proof {
                reveal_strlit("");
            }
            if frame.reason.as_str().is_empty() {
                text
            } else {
                text.concat(" (").concat(frame.reason.as_str()).concat(")")
            }
        },
        None => "Server closed connection without close code".to_string(),
    }
}

/// A websocket message.
#[derive(Debug, PartialEq, Eq)]
pub enum WsMessage {
    Text(String),
    Binary(Vec<u8>),
    Close(Option<CloseFrame>),
    Ping(Vec<u8>),
    Pong(Vec<u8>),
}

/// Wrapper type for decoded form of WebSocket message types that we want to handle.
#[derive(Debug, PartialEq, Eq)]
pub enum WsMessageDecoded {
    /// We got bytes that we decoded into a ByteBox.
    ByteBox(ByteBox),
    /// We got a ping message.
    Ping(Vec<u8>),
    /// We got a message type that we want to ignore.
    Ignore,
}

/// What a websocket message is decoded to. Only one that starts with a nonce holds a box, the
/// end of the connection is an error, and what is neither binary nor a ping is ignored.
pub open spec fn decodes_to(msg: WsMessage, result: SaltyResult<WsMessageDecoded>) -> bool {
    match msg {
        WsMessage::Binary(bytes) => if bytes@.len() >= NONCE_LENGTH {
            result matches Ok(WsMessageDecoded::ByteBox(bbox)) && bbox.encoded() == bytes@
        } else {
            result matches Err(e) && e@ == SaltyFault::Protocol(
                SignalingFault::Decode("message is too short"@).message(),
            )
        },
        WsMessage::Ping(payload) => result == Ok::<WsMessageDecoded, SaltyError>(
            WsMessageDecoded::Ping(payload),
        ),
        WsMessage::Close(_) => result matches Err(e) && e@ == SaltyFault::Network(
            "Server message stream ended"@,
        ),
        _ => result == Ok::<WsMessageDecoded, SaltyError>(WsMessageDecoded::Ignore),
    }
}

/// Decode a websocket message and wrap it into a `WsMessageDecoded`.
pub fn decode_ws_message(msg: WsMessage) -> (result: SaltyResult<WsMessageDecoded>)
    ensures
        decodes_to(msg, result),
{
    match msg {
        WsMessage::Binary(bytes) => match ByteBox::from_slice(bytes.as_slice()) {
            Ok(bbox) => Ok(WsMessageDecoded::ByteBox(bbox)),
            Err(e) => Err(SaltyError::Protocol(e.text())),
        },
        WsMessage::Ping(payload) => Ok(WsMessageDecoded::Ping(payload)),
        WsMessage::Close(_) => Err(SaltyError::Network("Server message stream ended".to_string())),
        _ => Ok(WsMessageDecoded::Ignore),
    }
}

/// Decode the next message of the stream. There is always one before the connection is closed.
pub fn decode_next_message(msg: Option<WsMessage>) -> (result: SaltyResult<WsMessageDecoded>)
    ensures
        match msg {
            Some(m) => decodes_to(m, result),
            None => result matches Err(e) && e@ == SaltyFault::Network(
                "Server message stream ended without close message"@,
            ),
        },
{
    match msg {
        Some(msg) => decode_ws_message(msg),
        None => Err(
            SaltyError::Network("Server message stream ended without close message".to_string()),
        ),
    }
}

/// An action in our pipeline.
#[derive(Debug, PartialEq, Eq)]
pub enum PipelineAction {
    /// We got a ByteBox to handle.
    ByteBox(ByteBox),
    /// Answer a ping with this payload, and go on with the next message.
    Pong(Vec<u8>),
    /// Go on with the next message.
    Skip,
}

/// Preprocess a `WsMessageDecoded`.
///
/// Here pings and ignored messages are handled.
pub fn preprocess_ws_message(decoded: WsMessageDecoded) -> (action: PipelineAction)
    ensures
        action == (match decoded {
            WsMessageDecoded::ByteBox(bbox) => PipelineAction::ByteBox(bbox),
            WsMessageDecoded::Ping(payload) => PipelineAction::Pong(payload),
            WsMessageDecoded::Ignore => PipelineAction::Skip,
        }),
{
    match decoded {
        WsMessageDecoded::ByteBox(bbox) => PipelineAction::ByteBox(bbox),
        WsMessageDecoded::Ping(payload) => PipelineAction::Pong(payload),
        WsMessageDecoded::Ignore => PipelineAction::Skip,
    }
}

/// The boxes to be sent because of the actions, in their order.
pub open spec fn replies(actions: Seq<ActionModel>) -> Seq<OutBoxModel>
    decreases actions.len(),
{
    if actions.len() == 0 {
        seq![]
    } else {
        match actions.last() {
            ActionModel::Reply(out) => replies(actions.drop_last()).push(out),
            _ => replies(actions.drop_last()),
        }
    }
}

/// The values for the task among the actions, in their order.
pub open spec fn task_messages(actions: Seq<ActionModel>) -> Seq<rmpv::Value>
    decreases actions.len(),
{
    if actions.len() == 0 {
        seq![]
    } else {
        match actions.last() {
            ActionModel::TaskMessage(value) => task_messages(actions.drop_last()).push(value),
            _ => task_messages(actions.drop_last()),
        }
    }
}

/// The first action in the list that `stops` holds of.
pub open spec fn first_such(
    actions: Seq<ActionModel>,
    stops: spec_fn(ActionModel) -> bool,
) -> Option<ActionModel>
    decreases actions.len(),
{
    if actions.len() == 0 {
        None
    } else if stops(actions[0]) {
        Some(actions[0])
    } else {
        first_such(actions.drop_first(), stops)
    }
}

/// The action is for the task.
pub open spec fn for_task(action: ActionModel) -> bool {
    action is TaskMessage || action is TaskClose
}

/// The action ends the loop in which the task sends and receives.
pub open spec fn ends_task_loop(action: ActionModel) -> bool {
    action is TaskClose || action is HandshakeDone
}

/// The models of a list of outgoing boxes.
pub open spec fn out_box_models(boxes: Seq<OutBox>) -> Seq<OutBoxModel> {
    boxes.map_values(|out: OutBox| out@)
}

/// If `stops` holds of none of the first `n` actions, the first one that it holds of is
/// among the rest.
proof fn first_such_skips(
    actions: Seq<ActionModel>,
    stops: spec_fn(ActionModel) -> bool,
    n: int,
)
    requires
        0 <= n <= actions.len(),
        forall|i: int| 0 <= i < n ==> !stops(#[trigger] actions[i]),
    ensures
        first_such(actions, stops) == first_such(actions.skip(n), stops),
    decreases n,
{
    if n > 0 {
        first_such_skips(actions.drop_first(), stops, n - 1);
        assert(actions.drop_first().skip(n - 1) =~= actions.skip(n));
    } else {
        assert(actions.skip(0) =~= actions);
    }
}

/// What has to be done after a message during the handshake.
#[derive(Debug, PartialEq)]
pub struct HandshakeStep {
    /// Send these boxes.
    pub messages: Vec<OutBox>,
    /// Then the handshake is over; otherwise, wait for the next message.
    pub handshake_done: bool,
}

/// The model of a [`HandshakeStep`].
#[verifier::ext_equal]
pub struct HandshakeStepModel {
    pub messages: Seq<OutBoxModel>,
    pub handshake_done: bool,
}

impl View for HandshakeStep {
    type V = HandshakeStepModel;

    open spec fn view(&self) -> HandshakeStepModel {
        HandshakeStepModel {
            messages: out_box_models(self.messages@),
            handshake_done: self.handshake_done,
        }
    }
}

/// What the actions amount to during the handshake. Nothing for the task can come in yet.
pub open spec fn handshake_outcome(actions: Seq<ActionModel>) -> Result<
    HandshakeStepModel,
    SaltyFault,
> {
    match first_such(actions, |a: ActionModel| for_task(a)) {
        Some(ActionModel::TaskMessage(_)) => Err(
            SaltyFault::Crash("Received task message during handshake"@),
        ),
        Some(_) => Err(SaltyFault::Crash("Received close message during handshake"@)),
        None => Ok(
            HandshakeStepModel {
                messages: replies(actions),
                handshake_done: actions.contains(ActionModel::HandshakeDone),
            },
        ),
    }
}

/// Whether the result is the expected one.
pub open spec fn handshake_result(
    result: SaltyResult<HandshakeStep>,
    expected: Result<HandshakeStepModel, SaltyFault>,
) -> bool {
    match expected {
        Ok(step) => result matches Ok(s) && s@ == step,
        Err(fault) => result matches Err(e) && e@ == fault,
    }
}

/// Collect what has to be done after a message during the handshake.
pub fn handshake_step(actions: Vec<HandleAction>) -> (result: SaltyResult<HandshakeStep>)
    ensures
        handshake_result(result, handshake_outcome(action_models(actions@))),
{
    let ghost models = action_models(actions@);
    let ghost stops = |a: ActionModel| for_task(a);
    let mut messages: Vec<OutBox> = Vec::new();
    let mut handshake_done = false;
    assert(models.take(0) =~= Seq::<ActionModel>::empty());
    assert(out_box_models(messages@) =~= Seq::<OutBoxModel>::empty());
    for action in iter: actions
        invariant
            models == action_models(actions@),
            iter.seq() == actions@,
            stops == (|a: ActionModel| for_task(a)),
            forall|i: int| 0 <= i < iter.index() ==> !stops(#[trigger] models[i]),
            out_box_models(messages@) == replies(models.take(iter.index() as int)),
            handshake_done == models.take(iter.index() as int).contains(ActionModel::HandshakeDone),
    {
        let ghost n = iter.index() as int;
        let ghost taken = models.take(n + 1);
        proof {
            assert(models[n] == action@);
            assert(taken.drop_last() =~= models.take(n));
            assert(taken.last() == action@);
            first_such_skips(models, stops, n);
            assert(models.skip(n)[0] == action@);
            assert(taken.contains(ActionModel::HandshakeDone) == (models.take(n).contains(
                ActionModel::HandshakeDone,
            ) || action@ == ActionModel::HandshakeDone)) by {
                if models.take(n).contains(ActionModel::HandshakeDone) {
                    let j = choose|j: int|
                        0 <= j < n && models.take(n)[j] == ActionModel::HandshakeDone;
                    assert(taken[j] == ActionModel::HandshakeDone);
                }
                if action@ == ActionModel::HandshakeDone {
                    assert(taken[n] == ActionModel::HandshakeDone);
                }
            }
        }
        match action {
            HandleAction::Reply(out) => {
                let ghost before = messages@;
                messages.push(out);
                assert(out_box_models(messages@) =~= out_box_models(before).push(out@));
            },
            HandleAction::HandshakeDone => {
                handshake_done = true;
            },
            HandleAction::TaskMessage(_) => {
                return Err(
                    SaltyError::Crash("Received task message during handshake".to_string()),
                );
            },
            HandleAction::TaskClose(_) => {
                return Err(
                    SaltyError::Crash("Received close message during handshake".to_string()),
                );
            },
        }
    }
    proof {
        let n = models.len() as int;
        first_such_skips(models, stops, n);
        assert(models.skip(n) =~= Seq::<ActionModel>::empty());
        assert(models.take(n) =~= models);
    }
    Ok(HandshakeStep { messages, handshake_done })
}

/// What has to be done after a message in the task loop.
#[derive(Debug, PartialEq)]
pub enum TaskStep {
    /// Send the boxes, and hand the values to the task.
    Forward { outgoing: Vec<OutBox>, incoming: Vec<rmpv::Value> },
    /// Tell the task that the connection is closed, and stop.
    Close(CloseCode),
}

/// The model of a [`TaskStep`].
#[verifier::ext_equal]
pub enum TaskStepModel {
    Forward { outgoing: Seq<OutBoxModel>, incoming: Seq<rmpv::Value> },
    Close(CloseCode),
}

impl View for TaskStep {
    type V = TaskStepModel;

    open spec fn view(&self) -> TaskStepModel {
        match self {
            TaskStep::Forward { outgoing, incoming } => TaskStepModel::Forward {
                outgoing: out_box_models(outgoing@),
                incoming: incoming@,
            },
            TaskStep::Close(reason) => TaskStepModel::Close(*reason),
        }
    }
}

/// What the actions amount to in the task loop. The first close message ends it, if there is
/// a task to be told; the handshake cannot end a second time.
pub open spec fn task_outcome(actions: Seq<ActionModel>, task_set: bool) -> Result<
    TaskStepModel,
    SaltyFault,
> {
    match first_such(actions, |a: ActionModel| ends_task_loop(a)) {
        Some(ActionModel::TaskClose(reason)) => if task_set {
            Ok(TaskStepModel::Close(reason))
        } else {
            Err(SaltyFault::Crash("Task not set"@))
        },
        Some(_) => Err(SaltyFault::Crash("Got HandleAction::HandshakeDone in task loop"@)),
        None => Ok(
            TaskStepModel::Forward { outgoing: replies(actions), incoming: task_messages(actions) },
        ),
    }
}

/// Whether the result is the expected one.
pub open spec fn task_result(
    result: SaltyResult<TaskStep>,
    expected: Result<TaskStepModel, SaltyFault>,
) -> bool {
    match expected {
        Ok(step) => result matches Ok(s) && s@ == step,
        Err(fault) => result matches Err(e) && e@ == fault,
    }
}

/// Collect what has to be done after a message in the task loop.
pub fn task_step(actions: Vec<HandleAction>, task_set: bool) -> (result: SaltyResult<TaskStep>)
    ensures
        task_result(result, task_outcome(action_models(actions@), task_set)),
{
    let ghost models = action_models(actions@);
    let ghost stops = |a: ActionModel| ends_task_loop(a);
    let mut outgoing: Vec<OutBox> = Vec::new();
    let mut incoming: Vec<rmpv::Value> = Vec::new();
    assert(models.take(0) =~= Seq::<ActionModel>::empty());
    assert(out_box_models(outgoing@) =~= Seq::<OutBoxModel>::empty());
    for action in iter: actions
        invariant
            models == action_models(actions@),
            iter.seq() == actions@,
            stops == (|a: ActionModel| ends_task_loop(a)),
            forall|i: int| 0 <= i < iter.index() ==> !stops(#[trigger] models[i]),
            out_box_models(outgoing@) == replies(models.take(iter.index() as int)),
            incoming@ == task_messages(models.take(iter.index() as int)),
    {
        let ghost n = iter.index() as int;
        proof {
            let taken = models.take(n + 1);
            assert(models[n] == action@);
            assert(taken.drop_last() =~= models.take(n));
            assert(taken.last() == action@);
            first_such_skips(models, stops, n);
            assert(models.skip(n)[0] == action@);
        }
        match action {
            HandleAction::Reply(out) => {
                let ghost before = outgoing@;
                outgoing.push(out);
                assert(out_box_models(outgoing@) =~= out_box_models(before).push(out@));
            },
            HandleAction::TaskMessage(value) => {
                incoming.push(value);
            },
            HandleAction::TaskClose(reason) => {
                if !task_set {
                    return Err(SaltyError::Crash("Task not set".to_string()));
                }
                return Ok(TaskStep::Close(reason));
            },
            HandleAction::HandshakeDone => {
                return Err(
                    SaltyError::Crash("Got HandleAction::HandshakeDone in task loop".to_string()),
                );
            },
        }
    }
    proof {
        let n = models.len() as int;
        first_such_skips(models, stops, n);
        assert(models.skip(n) =~= Seq::<ActionModel>::empty());
        assert(models.take(n) =~= models);
    }
    Ok(TaskStep::Forward { outgoing, incoming })
}

/// The actions that follow a message, or the failure of the handshake as the caller sees it.
pub open spec fn reported_actions(after: SignalingModel, actions: Seq<ActionModel>) -> Result<
    Seq<ActionModel>,
    SaltyFault,
> {
    match after.server.handshake_state {
        ServerStateModel::Failure(msg) => Err(SaltyFault::Protocol(msg)),
        _ => Ok(actions),
    }
}

impl<T> SaltyClient<T> {
    /// Handle a message during the handshake.
    pub fn handshake_message(
        &mut self,
        bbox: ByteBox,
        opened: Result<Message, String>,
        fresh: &Fresh,
    ) -> (result: SaltyResult<HandshakeStep>)
        requires
            old(self).wf(),
            old(self)@.signaling.signaling_state is ServerHandshake,
            !old(self)@.signaling.from_initiator(bbox.nonce),
            fresh.session_key != old(self)@.signaling.permanent_key,
        ensures
            final(self).wf(),
            ({
                let (signaling, actions) = old(self)@.signaling.on_message(
                    bbox.nonce,
                    opened_model(opened),
                    *fresh,
                );
                &&& final(self)@ == (ClientModel { signaling, ..old(self)@ })
                &&& handshake_result(
                    result,
                    match reported_actions(signaling, actions) {
                        Ok(actions) => handshake_outcome(actions),
                        Err(fault) => Err(fault),
                    },
                )
            }),
    {
        match self.handle_message(bbox, opened, fresh) {
            Ok(actions) => handshake_step(actions),
            Err(e) => Err(e.into_salty()),
        }
    }
}

/// If every action sends a box, nothing is for the task, nothing ends the handshake, and
/// the boxes are all there is to do.
proof fn only_replies(actions: Seq<ActionModel>)
    requires
        forall|i: int| 0 <= i < actions.len() ==> (#[trigger] actions[i]) is Reply,
    ensures
        first_such(actions, |a: ActionModel| for_task(a)) is None,
        !actions.contains(ActionModel::HandshakeDone),
        replies(actions).len() == actions.len(),
        forall|i: int|
            0 <= i < actions.len() ==> #[trigger] actions[i] == ActionModel::Reply(
                replies(actions)[i],
            ),
    decreases actions.len(),
{
    let stops = |a: ActionModel| for_task(a);
    first_such_skips(actions, stops, actions.len() as int);
    assert(actions.skip(actions.len() as int) =~= Seq::<ActionModel>::empty());
    if actions.len() > 0 {
        let rest = actions.drop_last();
        assert forall|i: int| 0 <= i < rest.len() implies (#[trigger] rest[i]) is Reply by {
            assert(rest[i] == actions[i]);
        }
        only_replies(rest);
        assert forall|i: int| 0 <= i < actions.len() implies #[trigger] actions[i]
            == ActionModel::Reply(replies(actions)[i]) by {
            if i < rest.len() {
                assert(rest[i] == actions[i]);
            }
        }
    }
}

/// During the handshake with the server no message leads to a crash or ends the loop, and
/// every action is a box to be sent, in the same order.
pub proof fn server_handshake_only_sends(s: SignalingModel, msg: Incoming)
    ensures
        handshake_outcome(s.actions(msg)) matches Ok(step) && {
            &&& !step.handshake_done
            &&& step.messages.len() == s.actions(msg).len()
            &&& forall|i: int|
                0 <= i < step.messages.len() ==> s.actions(msg)[i] == ActionModel::Reply(
                    #[trigger] step.messages[i],
                )
        },
{
    assert forall|i: int| 0 <= i < s.actions(msg).len() implies (#[trigger] s.actions(
        msg,
    )[i]) is Reply by {
        only_client_hello_is_plain(s, msg, i);
    }
    only_replies(s.actions(msg));
}

/// The order of two lists of actions is kept: what is to be sent, and what is for the task, is
/// that of the first list and then that of the second.
pub proof fn steps_keep_order(first: Seq<ActionModel>, second: Seq<ActionModel>)
    ensures
        replies(first + second) == replies(first) + replies(second),
        task_messages(first + second) == task_messages(first) + task_messages(second),
    decreases second.len(),
{
    let both = first + second;
    if second.len() == 0 {
        assert(both =~= first);
    } else {
        assert(both.drop_last() =~= first + second.drop_last());
        assert(both.last() == second.last());
        steps_keep_order(first, second.drop_last());
    }
}

} // verus!
