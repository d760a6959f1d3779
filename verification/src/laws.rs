//! Laws of keys, errors, close codes and clients.

use vstd::prelude::*;
use vstd::std_specs::cmp::PartialEqSpec;

use crate::crypto::{AuthToken, KeyStore, PrivateKey, PublicKey};
use crate::errors::{SaltyError, SaltyFault, SignalingError, SignalingFault};
use crate::protocol::cookie::Cookie;
use crate::protocol::laws::values::is_decimal;
use crate::protocol::model::PathModel;
use crate::task::Tasks;
use crate::text::decimal_reads_back;
use crate::{CloseCode, SaltyClient};

verus! {

/// Keys, tokens and cookies are the same exactly if all their bytes are.
pub proof fn secrets_are_compared_byte_by_byte(
    public: (PublicKey, PublicKey),
    private: (PrivateKey, PrivateKey),
    token: (AuthToken, AuthToken),
    cookie: (Cookie, Cookie),
)
    ensures
        public.0.eq_spec(&public.1) <==> forall|i: int|
            0 <= i < 32 ==> #[trigger] public.0.bytes@[i] == public.1.bytes@[i],
        private.0.eq_spec(&private.1) <==> forall|i: int|
            0 <= i < 32 ==> #[trigger] private.0.bytes@[i] == private.1.bytes@[i],
        token.0.eq_spec(&token.1) <==> forall|i: int|
            0 <= i < 32 ==> #[trigger] token.0.bytes@[i] == token.1.bytes@[i],
        cookie.0.eq_spec(&cookie.1) <==> forall|i: int|
            0 <= i < 16 ==> #[trigger] cookie.0.bytes@[i] == cookie.1.bytes@[i],
        PublicKey::obeys_eq_spec(),
        PrivateKey::obeys_eq_spec(),
        AuthToken::obeys_eq_spec(),
        Cookie::obeys_eq_spec(),
{
    if forall|i: int| 0 <= i < 32 ==> #[trigger] public.0.bytes@[i] == public.1.bytes@[i] {
        assert(public.0.bytes =~= public.1.bytes);
    }
    if forall|i: int| 0 <= i < 32 ==> #[trigger] private.0.bytes@[i] == private.1.bytes@[i] {
        assert(private.0.bytes =~= private.1.bytes);
    }
    if forall|i: int| 0 <= i < 32 ==> #[trigger] token.0.bytes@[i] == token.1.bytes@[i] {
        assert(token.0.bytes =~= token.1.bytes);
    }
    if forall|i: int| 0 <= i < 16 ==> #[trigger] cookie.0.bytes@[i] == cookie.1.bytes@[i] {
        assert(cookie.0.bytes =~= cookie.1.bytes);
    }
}

/// Key pairs are the same exactly if both of their keys are.
pub proof fn key_pairs_are_compared_key_by_key(a: KeyStore, b: KeyStore)
    ensures
        a.eq_spec(&b) <==> a.public_key == b.public_key && a.private_key == b.private_key,
        KeyStore::obeys_eq_spec(),
{
}

/// The model of an error is of the same kind and holds the same text.
pub proof fn error_models_hold_errors(text: String)
    ensures
        SaltyError::Crypto(text)@ == SaltyFault::Crypto(text@),
        SaltyError::Decode(text)@ == SaltyFault::Decode(text@),
        SaltyError::Network(text)@ == SaltyFault::Network(text@),
        SaltyError::Protocol(text)@ == SaltyFault::Protocol(text@),
        SaltyError::Crash(text)@ == SaltyFault::Crash(text@),
        SignalingError::Crypto(text)@ == SignalingFault::Crypto(text@),
        SignalingError::Decode(text)@ == SignalingFault::Decode(text@),
        SignalingError::Protocol(text)@ == SignalingFault::Protocol(text@),
        SignalingError::Crash(text)@ == SignalingFault::Crash(text@),
        SignalingError::CsnOverflow@ == SignalingFault::CsnOverflow,
        SignalingError::InvalidStateTransition(text)@ == SignalingFault::InvalidStateTransition(
            text@,
        ),
{
}

/// The text of an error names its kind, and then says what the error says.
pub proof fn errors_tell_their_kind(text: Seq<char>)
    ensures
        SignalingFault::Crypto(text).message() == "crypto error: "@ + text,
        SignalingFault::Decode(text).message() == "decode error: "@ + text,
        SignalingFault::Protocol(text).message() == "protocol error: "@ + text,
        SignalingFault::Crash(text).message() == "crash: "@ + text,
        SignalingFault::CsnOverflow.message() == "CSN overflow"@,
        SignalingFault::InvalidStateTransition(text).message() == "invalid state transition: "@
            + text,
{
}

/// Callers see an error of the signaling as one of the same kind with the same text. The kinds
/// that they do not know are unexpected, and the text of the error is kept.
pub proof fn errors_stay_what_they_are(text: Seq<char>)
    ensures
        SignalingFault::Crypto(text).reported() == SaltyFault::Crypto(text),
        SignalingFault::Decode(text).reported() == SaltyFault::Decode(text),
        SignalingFault::Protocol(text).reported() == SaltyFault::Protocol(text),
        SignalingFault::Crash(text).reported() == SaltyFault::Crash(text),
        SignalingFault::CsnOverflow.reported() == SaltyFault::Crash(
            "Unexpected signaling error: "@ + "CSN overflow"@,
        ),
        SignalingFault::InvalidStateTransition(text).reported() == SaltyFault::Crash(
            "Unexpected signaling error: "@ + ("invalid state transition: "@ + text),
        ),
{
}

/// Each close code has its own number. The first two are those of the websocket protocol, the
/// others count up from 3000.
pub proof fn close_codes_have_numbers(code: CloseCode)
    ensures
        code.number() == 1001 <==> code is WsGoingAway,
        code.number() == 1002 <==> code is WsProtocolError,
        code.number() == 3000 <==> code is PathFull,
        code.number() == 3001 <==> code is ProtocolError,
        code.number() == 3002 <==> code is InternalError,
        code.number() == 3003 <==> code is Handover,
        code.number() == 3004 <==> code is DroppedByInitiator,
        code.number() == 3005 <==> code is InitiatorCouldNotDecrypt,
        code.number() == 3006 <==> code is NoSharedTask,
        code.number() == 3007 <==> code is InvalidKey,
        1001 <= code.number() <= 1002 || 3000 <= code.number() <= 3007,
{
}

/// A close code is shown by its name, with its number in brackets.
pub proof fn close_codes_show_name_and_number(code: CloseCode)
    ensures
        code is WsGoingAway ==> code.name() == "WsGoingAway"@,
        code is WsProtocolError ==> code.name() == "WsProtocolError"@,
        code is PathFull ==> code.name() == "PathFull"@,
        code is ProtocolError ==> code.name() == "ProtocolError"@,
        code is InternalError ==> code.name() == "InternalError"@,
        code is Handover ==> code.name() == "Handover"@,
        code is DroppedByInitiator ==> code.name() == "DroppedByInitiator"@,
        code is InitiatorCouldNotDecrypt ==> code.name() == "InitiatorCouldNotDecrypt"@,
        code is NoSharedTask ==> code.name() == "NoSharedTask"@,
        code is InvalidKey ==> code.name() == "InvalidKey"@,
        exists|n: Seq<char>| #[trigger]
            is_decimal(n, code.number() as int) && code.shown() == code.name() + " ("@ + n + ")"@,
{
    decimal_reads_back(code.number() as nat);
    assert(is_decimal(crate::text::decimal(code.number() as nat), code.number() as int));
}

/// The model of a client holds what the client holds.
pub proof fn client_models_hold_clients<T>(client: SaltyClient<T>)
    ensures
        client@.signaling == client.signaling@,
        client@.tasks == client.tasks.tasks@,
        client@.task == client.task,
{
}

/// A client is in order exactly if it offers a task, and knows no responder as long as the
/// handshake with the server lasts.
pub proof fn clients_offer_tasks<T>(client: SaltyClient<T>, tasks: Tasks<T>)
    ensures
        tasks.wf() <==> tasks.tasks@.len() > 0,
        client.wf() <==> {
            &&& client.tasks.tasks@.len() > 0
            &&& match client@.signaling.path {
                PathModel::Initiator { responders, .. } => {
                    client@.signaling.signaling_state is ServerHandshake ==> forall|a: u8|
                        !responders.contains_key(a)
                },
                PathModel::Responder { .. } => true,
            }
        },
{
    if let PathModel::Initiator { responders, .. } = client@.signaling.path {
        if forall|a: u8| !responders.contains_key(a) {
            assert(responders =~= Map::empty());
        }
    }
}

} // verus!
