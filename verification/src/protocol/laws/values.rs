//! Laws of the values of the protocol: numbers, nonces, names, contexts and models.

use vstd::prelude::*;
use vstd::std_specs::convert::FromSpec;

use crate::boxes::{ByteBox, OutBox, Payload, PayloadModel};
use crate::crypto::PublicKey;
use crate::protocol::context::{
    InitiatorContext, PeerContext, ResponderContext, ServerContext, ServerModel,
};
use crate::protocol::cookie::{CookiePair, Seed};
use crate::protocol::csn::{
    CombinedSequence, CombinedSequencePair, CombinedSequenceSnapshot, CsnOverflow,
};
use crate::protocol::messages::{ClientAuth, Message, MessageModel, ServerAuth};
use crate::protocol::model::{subprotocol, PathModel, SignalingModel, Verdict};
use crate::protocol::nonce::Nonce;
use crate::protocol::state::{
    InitiatorHandshakeState, ServerHandshakeState, ServerStateModel, SignalingState,
};
use crate::protocol::types::{
    action_models, ActionModel, Address, ClientIdentity, HandleAction, Identity, Role,
};
use crate::protocol::{
    opened_model, outcome_model, requested_interval, whole_seconds, InitiatorSignaling,
    ResponderSignaling, Signaling, ValidationResult, SUBPROTOCOL,
};
use crate::text::{
    decimal_reads_back, digit_value, hex_byte_reads_back, number_read,
};

verus! {

/// The overflow number counts how often the sequence number has run over.
pub proof fn csn_has_two_parts(csn: CombinedSequenceSnapshot)
    ensures
        csn.value() == csn.overflow as int * 0x1_0000_0000 + csn.sequence as int,
{
}

/// A sequence stands at the number that its snapshot shows.
pub proof fn sequence_shows_its_number(csn: CombinedSequence)
    ensures
        csn.snapshot().overflow == csn.overflow,
        csn.snapshot().sequence == csn.sequence,
        csn.value() == csn.overflow as int * 0x1_0000_0000 + csn.sequence as int,
        CombinedSequence::of(csn.value()) == csn,
{
}

/// The failure to count up is told in the same words always.
pub proof fn exhausted_numbers_have_a_text()
    ensures
        CsnOverflow::message() == "overflow number has reached its maximum"@,
{
}

/// Where the parts of a nonce stand on the wire. Numbers start with their most significant
/// byte.
pub proof fn nonce_layout(nonce: Nonce)
    ensures
        ({
            let wire = nonce.encoded();
            &&& wire.len() == 24
            &&& forall|i: int| 0 <= i < 16 ==> #[trigger] wire[i] == nonce.cookie.bytes@[i]
            &&& wire[16] == nonce.source.0
            &&& wire[17] == nonce.destination.0
            &&& wire[18] * 0x100 + wire[19] == nonce.csn.overflow
            &&& wire[20] * 0x100_0000 + wire[21] * 0x1_0000 + wire[22] * 0x100 + wire[23]
                == nonce.csn.sequence
        }),
{
}

/// A box on the wire is its nonce followed by its bytes.
pub proof fn byte_box_layout(bbox: ByteBox)
    ensures
        bbox.encoded().len() == 24 + bbox.bytes@.len(),
        bbox.encoded().take(24) == bbox.nonce.encoded(),
        bbox.encoded().skip(24) == bbox.bytes@,
{
    nonce_layout(bbox.nonce);
    assert(bbox.encoded().take(24) =~= bbox.nonce.encoded());
    assert(bbox.encoded().skip(24) =~= bbox.bytes@);
}

/// An initiator may only be assigned 0x01, a responder only an address from 0x02 on.
pub proof fn roles_have_their_addresses(role: Role, address: Address)
    ensures
        role.may_hold(address) <==> (role is Initiator && address.0 == 1 || role is Responder
            && 2 <= address.0),
        role is Initiator ==> role.name() == "Initiator"@,
        role is Responder ==> role.name() == "Responder"@,
{
}

/// Addresses of clients and peers: the server has 0x00, as has a client without an identity,
/// the initiator 0x01, and a responder its own one.
pub proof fn identities_have_their_addresses(address: u8)
    ensures
        ClientIdentity::Unknown.holds().0 == 0,
        ClientIdentity::Initiator.holds().0 == 1,
        ClientIdentity::Responder(address).holds().0 == address,
        Identity::Server.holds().0 == 0,
        Identity::Initiator.holds().0 == 1,
        Identity::Responder(address).holds().0 == address,
{
}

/// Whether the text is the number in decimal notation.
pub open spec fn is_decimal(text: Seq<char>, n: int) -> bool {
    &&& number_read(text, 10) == n
    &&& text.len() > 0
    &&& forall|i: int| 0 <= i < text.len() ==> '0' <= #[trigger] text[i] <= '9'
    &&& text[0] == '0' ==> text.len() == 1
}

/// How addresses and identities are written in messages.
pub proof fn names_tell_addresses(address: u8)
    ensures
        exists|hex: Seq<char>|
            {
                &&& Address(address).name() == "Address(0x"@ + hex + ")"@
                &&& hex.len() == 2
                &&& digit_value(hex[0]) >= 0
                &&& digit_value(hex[1]) >= 0
                &&& digit_value(hex[0]) * 16 + digit_value(hex[1]) == address
            },
        ClientIdentity::Unknown.name() == "Unknown"@,
        ClientIdentity::Initiator.name() == "Initiator"@,
        exists|n: Seq<char>| #[trigger]
            is_decimal(n, address as int) && ClientIdentity::Responder(address).name()
                == "Responder("@ + n + ")"@,
        Identity::Server.name() == "server"@,
        Identity::Initiator.name() == "initiator"@,
        exists|n: Seq<char>| #[trigger]
            is_decimal(n, address as int) && Identity::Responder(address).name() == "responder "@
                + n,
{
    hex_byte_reads_back(address);
    decimal_reads_back(address as nat);
    let hex = crate::text::hex_byte(address);
    assert(Address(address).name() == "Address(0x"@ + hex + ")"@);
    assert(is_decimal(crate::text::decimal(address as nat), address as int));
}

/// The names of the states of the handshake with the server.
pub proof fn states_have_names(msg: Seq<char>)
    ensures
        ServerStateModel::New.name() == "New"@,
        ServerStateModel::ClientInfoSent.name() == "ClientInfoSent"@,
        ServerStateModel::Done.name() == "Done"@,
        ServerStateModel::Failure(msg).name() == "Failure"@,
{
}

/// Every kind of message has its own type.
pub proof fn messages_have_types(msg: MessageModel)
    ensures
        msg is ServerHello ==> msg.tag() == "server-hello"@,
        msg is ClientHello ==> msg.tag() == "client-hello"@,
        msg is ClientAuth ==> msg.tag() == "client-auth"@,
        msg is ServerAuth ==> msg.tag() == "server-auth"@,
        msg is Token ==> msg.tag() == "token"@,
        msg is Key ==> msg.tag() == "key"@,
        msg is Close ==> msg.tag() == "close"@,
{
}

/// The name of the subprotocol is the one that is asked for on the connection.
pub proof fn subprotocol_is_known()
    ensures
        subprotocol() == "v1.saltyrtc.org"@,
        SUBPROTOCOL@ == "v1.saltyrtc.org"@,
{
}

/// The ping interval is requested in whole seconds, and 0 stands for none.
pub proof fn ping_interval_is_in_whole_seconds(interval: Option<std::time::Duration>)
    ensures
        interval is None ==> requested_interval(interval) == 0,
        interval matches Some(duration) ==> requested_interval(interval) == whole_seconds(
            duration,
        ),
{
}

/// A new context has sent and accepted nothing: our side starts with the seed, and nothing is
/// known of the other side but what was given.
pub proof fn new_contexts_know_nothing(seed: Seed, address: Address, key: PublicKey)
    ensures
        ({
            let server = ServerModel::fresh(seed);
            let responder = ResponderContext::fresh(address, seed);
            let initiator = InitiatorContext::fresh(key, seed);
            &&& server.handshake_state is New
            &&& server.permanent_key is None
            &&& server.session_key is None
            &&& starts_with(server.csn_pair, server.cookie_pair, seed)
            &&& responder.address == address
            &&& responder.permanent_key is None
            &&& responder.session_key is None
            &&& starts_with(responder.csn_pair, responder.cookie_pair, seed)
            &&& initiator.permanent_key == key
            &&& initiator.session_key is None
            &&& initiator.handshake_state is New
            &&& starts_with(initiator.csn_pair, initiator.cookie_pair, seed)
        }),
{
}

/// Whether our side starts with the seed and the other side is not known.
pub open spec fn starts_with(csn: CombinedSequencePair, cookies: CookiePair, seed: Seed) -> bool {
    &&& csn.ours.overflow == 0
    &&& csn.ours.sequence == seed.sequence
    &&& csn.theirs is None
    &&& cookies.ours == seed.cookie
    &&& cookies.theirs is None
}

/// What is common to contexts is what the contexts hold.
pub proof fn peers_are_their_contexts(
    server: ServerContext,
    responder: ResponderContext,
    initiator: InitiatorContext,
)
    ensures
        server.peer().identity is Server,
        server.peer().permanent_key == server.permanent_key,
        server.peer().session_key == server.session_key,
        server.peer().csn_pair == server.csn_pair,
        server.peer().cookie_pair == server.cookie_pair,
        responder.peer().identity == Identity::Responder(responder.address.0),
        responder.peer().permanent_key == responder.permanent_key,
        responder.peer().session_key == responder.session_key,
        responder.peer().csn_pair == responder.csn_pair,
        responder.peer().cookie_pair == responder.cookie_pair,
        initiator.peer().identity is Initiator,
        initiator.peer().permanent_key == Some(initiator.permanent_key),
        initiator.peer().session_key == initiator.session_key,
        initiator.peer().csn_pair == initiator.csn_pair,
        initiator.peer().cookie_pair == initiator.cookie_pair,
{
}

/// To change the numbers or the cookies of a context is to change nothing else of it.
pub proof fn contexts_change_in_one_place(
    server: ServerContext,
    responder: ResponderContext,
    initiator: InitiatorContext,
    csn: CombinedSequencePair,
    cookies: CookiePair,
)
    ensures
        server.with_csn_pair(csn) == (ServerContext { csn_pair: csn, ..server }),
        server.with_cookie_pair(cookies) == (ServerContext { cookie_pair: cookies, ..server }),
        responder.with_csn_pair(csn) == (ResponderContext { csn_pair: csn, ..responder }),
        responder.with_cookie_pair(cookies) == (ResponderContext {
            cookie_pair: cookies,
            ..responder
        }),
        initiator.with_csn_pair(csn) == (InitiatorContext { csn_pair: csn, ..initiator }),
        initiator.with_cookie_pair(cookies) == (InitiatorContext {
            cookie_pair: cookies,
            ..initiator
        }),
{
}

/// The model of a message holds what the message holds.
pub proof fn message_models_hold_messages(msg: Message)
    ensures
        match msg {
            Message::ServerHello(m) => msg@ == MessageModel::ServerHello(m.key),
            Message::ClientHello(m) => msg@ == MessageModel::ClientHello(m.key),
            Message::ClientAuth(m) => msg@ == MessageModel::ClientAuth(m@),
            Message::ServerAuth(m) => msg@ == MessageModel::ServerAuth(m@),
            Message::Token(m) => msg@ == MessageModel::Token(m.key),
            Message::Key(m) => msg@ == MessageModel::Key(m.key),
            Message::Close(m) => msg@ == MessageModel::Close(m.reason),
        },
{
}

/// The models of the messages for authentication hold what the messages hold.
pub proof fn auth_models_hold_messages(client: ClientAuth, server: ServerAuth)
    ensures
        client@.your_cookie == client.your_cookie,
        client@.ping_interval == client.ping_interval,
        client@.your_key == client.your_key,
        client@.subprotocols.len() == client.subprotocols@.len(),
        forall|i: int|
            0 <= i < client.subprotocols@.len() ==> #[trigger] client@.subprotocols[i]
                == client.subprotocols@[i]@,
        server@.your_cookie == server.your_cookie,
        server@.initiator_connected == server.initiator_connected,
        match server.signed_keys {
            Some(keys) => server@.signed_keys == Some(keys@),
            None => server@.signed_keys is None,
        },
        match server.responders {
            Some(responders) => server@.responders == Some(responders@),
            None => server@.responders is None,
        },
{
}

/// The models of boxes and actions hold what the boxes and actions hold.
pub proof fn action_models_hold_actions(actions: Seq<HandleAction>, out: OutBox)
    ensures
        out@.nonce == out.nonce,
        out@.sealing == out.sealing,
        out@.payload == out.payload@,
        match out.payload {
            Payload::Message(msg) => out.payload@ == PayloadModel::Message(msg@),
            Payload::Task(value) => out.payload@ == PayloadModel::Task(value),
        },
        action_models(actions).len() == actions.len(),
        forall|i: int|
            0 <= i < actions.len() ==> match actions[i] {
                HandleAction::Reply(o) => #[trigger] action_models(actions)[i]
                    == ActionModel::Reply(o@),
                HandleAction::HandshakeDone => action_models(actions)[i]
                    == ActionModel::HandshakeDone,
                HandleAction::TaskMessage(v) => action_models(actions)[i]
                    == ActionModel::TaskMessage(v),
                HandleAction::TaskClose(r) => action_models(actions)[i] == ActionModel::TaskClose(
                    r,
                ),
            },
{
}

/// The models of outcomes hold what the outcomes hold.
pub proof fn outcome_models_hold_outcomes(
    opened: Result<Message, String>,
    outcome: Result<Vec<HandleAction>, String>,
    result: ValidationResult,
    state: ServerHandshakeState,
)
    ensures
        match opened {
            Ok(msg) => opened_model(opened) == Ok::<MessageModel, Seq<char>>(msg@),
            Err(text) => opened_model(opened) == Err::<MessageModel, Seq<char>>(text@),
        },
        match outcome {
            Ok(actions) => outcome_model(outcome) == Ok::<Seq<ActionModel>, Seq<char>>(
                action_models(actions@),
            ),
            Err(text) => outcome_model(outcome) == Err::<Seq<ActionModel>, Seq<char>>(text@),
        },
        match result {
            ValidationResult::Valid => result@ is Accept,
            ValidationResult::DropMsg(text) => result@ == Verdict::Drop(text@),
            ValidationResult::Fail(text) => result@ == Verdict::Fail(text@),
        },
        match state {
            ServerHandshakeState::New => state@ is New,
            ServerHandshakeState::ClientInfoSent => state@ is ClientInfoSent,
            ServerHandshakeState::Done => state@ is Done,
            ServerHandshakeState::Failure(text) => state@ == ServerStateModel::Failure(text@),
        },
{
}

/// The model of the signaling holds what the signaling holds.
pub proof fn signaling_models_hold_signaling(i: InitiatorSignaling, r: ResponderSignaling)
    ensures
        i@.signaling_state == i.signaling_state,
        i@.permanent_key == i.permanent_key,
        i@.session_key == i.session_key,
        i@.auth_token == i.auth_token,
        i@.identity == i.identity,
        holds_server(i@.server, i.server),
        i@.ping_interval == requested_interval(i.ping_interval),
        i@.path == (PathModel::Initiator { responders: i.responders@, responder: i.responder }),
        i@.role() is Initiator,
        r@.signaling_state == r.signaling_state,
        r@.permanent_key == r.permanent_key,
        r@.session_key == r.session_key,
        r@.auth_token == r.auth_token,
        r@.identity == r.identity,
        holds_server(r@.server, r.server),
        r@.ping_interval == requested_interval(r.ping_interval),
        r@.path == (PathModel::Responder { initiator: r.initiator }),
        r@.role() is Responder,
        Signaling::Initiator(i)@ == i@,
        Signaling::Responder(r)@ == r@,
{
}

/// Signaling that is made from that of a role is the one it was made from.
pub proof fn signaling_is_made_from_roles(i: InitiatorSignaling, r: ResponderSignaling)
    ensures
        <Signaling as FromSpec<InitiatorSignaling>>::obeys_from_spec(),
        <Signaling as FromSpec<ResponderSignaling>>::obeys_from_spec(),
        <Signaling as FromSpec<InitiatorSignaling>>::from_spec(i) is Initiator,
        <Signaling as FromSpec<InitiatorSignaling>>::from_spec(i)@ == i@,
        <Signaling as FromSpec<ResponderSignaling>>::from_spec(r) is Responder,
        <Signaling as FromSpec<ResponderSignaling>>::from_spec(r)@ == r@,
{
}

/// Whether the model of a server holds what the context holds.
pub open spec fn holds_server(model: ServerModel, server: ServerContext) -> bool {
    &&& model.handshake_state == server.handshake_state@
    &&& model.permanent_key == server.permanent_key
    &&& model.session_key == server.session_key
    &&& model.csn_pair == server.csn_pair
    &&& model.cookie_pair == server.cookie_pair
}

/// To exchange the server context is to change nothing else, and what was put in comes out.
pub proof fn server_context_is_exchanged_alone(s: Signaling, server: ServerContext)
    ensures
        s.with_server(server).server_context() == server,
        s.with_server(s.server_context()) == s,
        s.with_server(server)@ == (SignalingModel { server: server@, ..s@ }),
        s@.server == s.server_context()@,
{
}

/// To exchange the context of a responder is to change nothing else.
pub proof fn responder_context_is_exchanged_alone(
    s: Signaling,
    address: u8,
    context: ResponderContext,
)
    requires
        s is Initiator,
    ensures
        ({
            let t = s.responder_model(address, context);
            &&& t == (SignalingModel { path: t.path, ..s@ })
            &&& t.path->responders == s->Initiator_0.responders@.insert(address, context)
            &&& t.path->responder == s->Initiator_0.responder
        }),
{
}

/// A new initiator has a token and knows no one. A new responder knows the initiator's key.
pub proof fn new_signaling_knows_nothing(
    key: crate::crypto::KeyStore,
    token: crate::crypto::AuthToken,
    maybe_token: Option<crate::crypto::AuthToken>,
    initiator_pubkey: PublicKey,
    server: Seed,
    initiator: Seed,
)
    ensures
        ({
            let i = SignalingModel::new_initiator(key, token, server);
            let r = SignalingModel::new_responder(
                key,
                initiator_pubkey,
                maybe_token,
                server,
                initiator,
            );
            &&& is_new(i, key, server)
            &&& i.auth_token == Some(token)
            &&& i.role() is Initiator
            &&& i.path->responders.dom() == Set::<u8>::empty()
            &&& i.path->responder is None
            &&& is_new(r, key, server)
            &&& r.auth_token == maybe_token
            &&& r.role() is Responder
            &&& r.path->initiator.permanent_key == initiator_pubkey
            &&& r.path->initiator.session_key is None
            &&& r.path->initiator.handshake_state == InitiatorHandshakeState::New
            &&& starts_with(
                r.path->initiator.csn_pair,
                r.path->initiator.cookie_pair,
                initiator,
            )
        }),
{
}

/// Whether nothing has happened yet, whatever the role.
pub open spec fn is_new(s: SignalingModel, key: crate::crypto::KeyStore, server: Seed) -> bool {
    &&& s.signaling_state == SignalingState::ServerHandshake
    &&& s.permanent_key == key
    &&& s.session_key is None
    &&& s.identity == ClientIdentity::Unknown
    &&& s.ping_interval == 0
    &&& s.server.handshake_state is New
    &&& s.server.permanent_key is None
    &&& s.server.session_key is None
    &&& starts_with(s.server.csn_pair, s.server.cookie_pair, server)
}

} // verus!
