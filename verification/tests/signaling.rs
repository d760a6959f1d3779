use saltyrtc_client::boxes::{ByteBox, OpenBox, Payload, Sealing};
use saltyrtc_client::crypto::{AuthToken, KeyStore, PrivateKey, PublicKey};
use saltyrtc_client::errors::{SaltyError, SignalingError};
use saltyrtc_client::protocol::context::{InitiatorContext, PeerContext, ResponderContext};
use saltyrtc_client::protocol::cookie::{Cookie, CookiePair, Seed};
use saltyrtc_client::protocol::csn::{
    CombinedSequence, CombinedSequencePair, CombinedSequenceSnapshot, CsnOverflow,
};
use saltyrtc_client::protocol::messages::{
    ClientAuth, ClientHello, Close, Key, Message, ServerAuth, ServerHello, Token,
};
use saltyrtc_client::protocol::model::Fresh;
use saltyrtc_client::protocol::nonce::Nonce;
use saltyrtc_client::protocol::state::{
    InitiatorHandshakeState, ServerHandshakeState, SignalingState,
};
use saltyrtc_client::protocol::types::{Address, ClientIdentity, HandleAction, Identity, Role};
use saltyrtc_client::protocol::{
    InitiatorSignaling, ResponderSignaling, Signaling, ValidationResult, SUBPROTOCOL,
};
use saltyrtc_client::CloseCode;

fn key_store(n: u8) -> KeyStore {
    KeyStore::new(PublicKey { bytes: [n; 32] }, PrivateKey { bytes: [n + 1; 32] })
}

fn public(n: u8) -> PublicKey {
    PublicKey { bytes: [n; 32] }
}

fn token(n: u8) -> AuthToken {
    AuthToken { bytes: [n; 32] }
}

fn cookie(n: u8) -> Cookie {
    Cookie::new([n; 16])
}

fn fresh() -> Fresh {
    let mut seeds = [Seed::new(cookie(0), 0); 256];
    for i in 0..256usize {
        seeds[i] = Seed::new(cookie(i as u8), i as u32);
    }
    Fresh { session_key: key_store(0x50), seeds }
}

fn initiator() -> Signaling {
    Signaling::new_initiator(key_store(0x10), token(0x20), Seed::new(cookie(0x30), 99))
}

fn responder(auth_token: Option<AuthToken>) -> Signaling {
    Signaling::new_responder(
        key_store(0x10),
        public(0x18),
        auth_token,
        Seed::new(cookie(0x30), 99),
        Seed::new(cookie(0x31), 499),
    )
}

fn nonce(source: u8, destination: u8, sequence: u32) -> Nonce {
    Nonce::new(
        cookie(1),
        Address(source),
        Address(destination),
        CombinedSequenceSnapshot::new(0, sequence),
    )
}

fn handle(s: &mut Signaling, msg: Message, nonce: Nonce) -> Vec<HandleAction> {
    s.handle_message(ByteBox::new(vec![], nonce), Ok(msg), &fresh())
}

fn hello() -> Message {
    ServerHello::new(public(0x60)).into_message()
}

fn auth_for_initiator(responders: Vec<u8>) -> Message {
    let addresses = responders.into_iter().map(Address).collect();
    ServerAuth::for_initiator(cookie(0x30), None, addresses).into_message()
}

fn auth_for_responder(initiator_connected: bool) -> Message {
    ServerAuth::for_responder(cookie(0x30), None, initiator_connected).into_message()
}

fn failure(msg: &str) -> ServerHandshakeState {
    ServerHandshakeState::Failure(msg.to_string())
}

fn client_auth(ping_interval: u64) -> Message {
    ClientAuth {
        your_cookie: cookie(1),
        subprotocols: vec!["v1.saltyrtc.org".to_string()],
        ping_interval,
        your_key: None,
    }
    .into_message()
}

fn our_nonce(n: u8, source: u8, destination: u8, sequence: u32) -> Nonce {
    Nonce::new(
        cookie(n),
        Address(source),
        Address(destination),
        CombinedSequenceSnapshot::new(0, sequence),
    )
}

#[test]
fn initiator_answers_server_hello_with_client_auth() {
    let mut s = initiator();
    let actions = handle(&mut s, hello(), nonce(0, 0, 5));
    let reply = OpenBox::new(client_auth(0), our_nonce(0x30, 0, 0, 100))
        .encrypt(&key_store(0x10), &public(0x60));
    assert_eq!(actions, vec![HandleAction::Reply(reply)]);
    assert_eq!(s.server().permanent_key, Some(public(0x60)));
    assert_eq!(s.identity(), ClientIdentity::Unknown);
}

#[test]
fn responder_answers_server_hello_with_client_hello_and_client_auth() {
    let mut s = responder(None);
    let actions = handle(&mut s, hello(), nonce(0, 0, 5));
    let first = OpenBox::new(
        ClientHello::new(public(0x10)).into_message(),
        our_nonce(0x30, 0, 0, 100),
    )
    .encode();
    let second = OpenBox::new(client_auth(0), our_nonce(0x30, 0, 0, 101))
        .encrypt(&key_store(0x10), &public(0x60));
    assert_eq!(actions, vec![HandleAction::Reply(first), HandleAction::Reply(second)]);
}

#[test]
fn initiator_handshake_is_done_after_two_messages() {
    let mut s = initiator();
    handle(&mut s, hello(), nonce(0, 0, 5));
    let actions = handle(&mut s, auth_for_initiator(vec![2, 255]), nonce(0, 1, 6));
    assert_eq!(actions, vec![]);
    assert_eq!(s.server().handshake_state(), &ServerHandshakeState::Done);
    assert_eq!(s.signaling_state(), SignalingState::PeerHandshake);
    assert_eq!(s.identity(), ClientIdentity::Initiator);
    let responders = &s.as_initiator().responders;
    assert_eq!(responders.len(), 2);
    assert_eq!(
        responders[&255],
        ResponderContext::new(Address(255), Seed::new(cookie(255), 255))
    );
    assert!(!responders.contains_key(&3));
}

#[test]
fn initiator_handshake_is_done_without_responders() {
    let mut s = initiator();
    handle(&mut s, hello(), nonce(0, 0, 5));
    handle(&mut s, auth_for_initiator(vec![]), nonce(0, 1, 6));
    assert_eq!(s.server().handshake_state(), &ServerHandshakeState::Done);
    assert_eq!(s.as_initiator().responders.len(), 0);
}

#[test]
fn responder_greets_present_initiator() {
    let mut s = responder(Some(token(0x21)));
    handle(&mut s, hello(), nonce(0, 0, 5));
    let actions = handle(&mut s, auth_for_responder(true), nonce(0, 9, 6));
    let first = OpenBox::new(
        Token::new(public(0x10)).into_message(),
        our_nonce(0x31, 9, 1, 500),
    )
    .encrypt_token(&token(0x21));
    let second = OpenBox::new(
        Key::new(public(0x50)).into_message(),
        our_nonce(0x31, 9, 1, 501),
    )
    .encrypt(&key_store(0x10), &public(0x18));
    assert_eq!(actions, vec![HandleAction::Reply(first), HandleAction::Reply(second)]);
    assert_eq!(s.as_responder().session_key, Some(key_store(0x50)));
    assert_eq!(
        s.as_responder().initiator.handshake_state(),
        &InitiatorHandshakeState::KeySent
    );
    assert_eq!(s.signaling_state(), SignalingState::PeerHandshake);
    assert_eq!(s.identity(), ClientIdentity::Responder(9));
}

#[test]
fn responder_waits_for_absent_initiator() {
    let mut s = responder(Some(token(0x21)));
    handle(&mut s, hello(), nonce(0, 0, 5));
    let actions = handle(&mut s, auth_for_responder(false), nonce(0, 9, 6));
    assert_eq!(actions, vec![]);
    assert_eq!(s.server().handshake_state(), &ServerHandshakeState::Done);
    assert_eq!(s.as_responder().session_key, None);
    assert_eq!(
        s.as_responder().initiator.handshake_state(),
        &InitiatorHandshakeState::New
    );
}

#[test]
fn responder_refuses_list_of_responders() {
    let mut s = responder(None);
    handle(&mut s, hello(), nonce(0, 0, 5));
    let actions = handle(&mut s, auth_for_initiator(vec![]), nonce(0, 9, 6));
    assert_eq!(actions, vec![]);
    assert_eq!(
        s.server().handshake_state(),
        &failure(
            "we're a responder, but the `responders` field in the server-auth message is set"
        )
    );
}

#[test]
fn responder_keeps_its_session_key() {
    let s = responder(None);
    let mut inner = match s {
        Signaling::Responder(inner) => inner,
        Signaling::Initiator(_) => panic!("not a responder"),
    };
    inner.session_key = Some(key_store(0x70));
    let mut s = Signaling::from(inner);
    handle(&mut s, hello(), nonce(0, 0, 5));
    let actions = handle(&mut s, auth_for_responder(true), nonce(0, 9, 6));
    assert_eq!(actions, vec![]);
    assert_eq!(
        s.server().handshake_state(),
        &failure("Cannot generate new session key: It has already been generated")
    );
    assert_eq!(s.as_responder().session_key, Some(key_store(0x70)));
}

#[test]
fn addresses_must_fit_the_role() {
    let mut s = initiator();
    handle(&mut s, hello(), nonce(0, 0, 5));
    handle(&mut s, auth_for_initiator(vec![]), nonce(0, 0x0a, 6));
    assert_eq!(
        s.server().handshake_state(),
        &failure(
            "invalid nonce: cannot assign address Address(0x0a) to a client with role Initiator"
        )
    );
    assert_eq!(s.identity(), ClientIdentity::Unknown);

    let mut s = responder(None);
    handle(&mut s, hello(), nonce(0, 0, 5));
    handle(&mut s, auth_for_responder(true), nonce(0, 1, 6));
    assert_eq!(
        s.server().handshake_state(),
        &failure(
            "invalid nonce: cannot assign address Address(0x01) to a client with role Responder"
        )
    );
}

#[test]
fn identity_is_never_replaced() {
    let mut s = responder(None);
    s.set_identity(ClientIdentity::Responder(9));
    s.server_mut().set_handshake_state(ServerHandshakeState::ClientInfoSent);
    handle(&mut s, auth_for_responder(true), nonce(0, 10, 6));
    assert_eq!(s.identity(), ClientIdentity::Responder(9));
    assert_eq!(
        s.server().handshake_state(),
        &failure("invalid nonce: bad destination: Address(0x0a) (our identity is Responder(9))")
    );
}

#[test]
fn server_auth_without_identity_fails() {
    let mut s = initiator();
    handle(&mut s, hello(), nonce(0, 0, 5));
    handle(&mut s, auth_for_initiator(vec![]), nonce(0, 0, 6));
    assert_eq!(s.server().handshake_state(), &failure("No identity assigned"));
}

#[test]
fn unknown_responder_lets_the_handshake_fail() {
    let mut s = initiator();
    handle(&mut s, hello(), nonce(0, 0, 5));
    let actions = handle(&mut s, hello(), nonce(0x20, 1, 6));
    assert_eq!(actions, vec![]);
    assert_eq!(
        s.server().handshake_state(),
        &failure("invalid nonce: could not find responder with address 32")
    );
}

#[test]
fn discarded_message_changes_nothing_but_the_identity() {
    let mut s = initiator();
    handle(&mut s, hello(), nonce(0, 0, 5));
    assert_eq!(
        s.validate_nonce(&nonce(1, 1, 6)),
        ValidationResult::DropMsg(
            "bad source: Address(0x01) (our identity is Initiator)".to_string()
        )
    );
    assert_eq!(s.identity(), ClientIdentity::Initiator);
    assert_eq!(s.server().handshake_state(), &ServerHandshakeState::ClientInfoSent);
    assert_eq!(
        s.server().csn_pair.theirs,
        Some(CombinedSequenceSnapshot::new(0, 5))
    );
    handle(&mut s, auth_for_initiator(vec![]), nonce(0, 1, 6));
    assert_eq!(s.server().handshake_state(), &ServerHandshakeState::Done);
}

#[test]
fn messages_from_known_responders_are_validated_by_themselves() {
    let mut s = initiator();
    handle(&mut s, hello(), nonce(0, 0, 5));
    handle(&mut s, auth_for_initiator(vec![2, 3]), nonce(0, 1, 6));
    assert_eq!(s.validate_nonce(&nonce(2, 1, 1)), ValidationResult::Valid);
    assert_eq!(s.validate_nonce(&nonce(3, 1, 70)), ValidationResult::Valid);
    assert_eq!(s.validate_nonce(&nonce(2, 1, 2)), ValidationResult::Valid);
    assert_eq!(
        s.validate_nonce(&nonce(3, 1, 70)),
        ValidationResult::Fail("responder 3 CSN hasn't been incremented".to_string())
    );
    assert_eq!(
        s.validate_nonce(&nonce(4, 1, 1)),
        ValidationResult::Fail("could not find responder with address 4".to_string())
    );
}

#[test]
fn first_cookie_of_a_responder_must_differ_from_ours() {
    let mut s = initiator();
    handle(&mut s, hello(), nonce(0, 0, 5));
    handle(&mut s, auth_for_initiator(vec![2]), nonce(0, 1, 6));
    // Our cookie for this responder holds its address
    let mut bad = nonce(2, 1, 1);
    bad.cookie = cookie(2);
    assert_eq!(
        s.validate_nonce(&bad),
        ValidationResult::Fail(
            "cookie from responder 2 is identical to our own cookie".to_string()
        )
    );
    // The number has been taken up, though
    assert_eq!(
        s.validate_nonce(&nonce(2, 1, 1)),
        ValidationResult::Fail("responder 2 CSN hasn't been incremented".to_string())
    );
    assert_eq!(s.validate_nonce(&nonce(2, 1, 2)), ValidationResult::Valid);
}

#[test]
fn messages_from_the_initiator_are_recognised() {
    let mut s = responder(None);
    assert!(!s.is_from_initiator(&nonce(1, 0, 1)));
    assert!(!s.is_from_initiator(&nonce(1, 9, 1)));
    handle(&mut s, hello(), nonce(0, 0, 5));
    assert!(s.is_from_initiator(&nonce(1, 9, 1)));
    assert!(!s.is_from_initiator(&nonce(0, 9, 1)));
    handle(&mut s, auth_for_responder(false), nonce(0, 9, 6));
    assert!(s.is_from_initiator(&nonce(1, 9, 1)));
    assert!(!s.is_from_initiator(&nonce(1, 8, 1)));
    let mut s = initiator();
    handle(&mut s, hello(), nonce(0, 0, 5));
    assert!(!s.is_from_initiator(&nonce(1, 9, 1)));
}

#[test]
fn responder_validates_messages_of_the_initiator() {
    let mut s = responder(None);
    s.set_identity(ClientIdentity::Responder(3));
    assert_eq!(s.validate_nonce(&nonce(1, 3, 10)), ValidationResult::Valid);
    assert_eq!(
        s.as_responder().initiator.csn_pair.theirs,
        Some(CombinedSequenceSnapshot::new(0, 10))
    );
    assert_eq!(s.as_responder().initiator.cookie_pair.theirs, Some(cookie(1)));
    // The server's numbers and cookies are others
    assert_eq!(s.server().csn_pair.theirs, None);
    assert_eq!(
        s.validate_nonce(&nonce(1, 3, 10)),
        ValidationResult::Fail("initiator CSN hasn't been incremented".to_string())
    );
    assert_eq!(s.validate_nonce(&nonce(0, 3, 7)), ValidationResult::Valid);
    assert_eq!(s.validate_nonce(&nonce(1, 3, 11)), ValidationResult::Valid);
    let mut changed = nonce(1, 3, 12);
    changed.cookie = cookie(2);
    assert_eq!(
        s.validate_nonce(&changed),
        ValidationResult::Fail("cookie from initiator has changed".to_string())
    );
    assert_eq!(
        s.discard_reason(&nonce(2, 3, 1)),
        Some("bad source: Address(0x02) (our identity is Responder(3))".to_string())
    );
    assert_eq!(s.discard_reason(&nonce(1, 3, 1)), None);
}

#[test]
fn nonce_does_not_change_how_a_message_is_opened() {
    let mut s = initiator();
    handle(&mut s, hello(), nonce(0, 0, 5));
    let opening = s.opening();
    assert_eq!(s.validate_nonce(&nonce(0, 1, 6)), ValidationResult::Valid);
    assert_eq!(s.opening(), opening);
}

#[test]
fn decryption_errors_are_told_in_one_line() {
    let error = || Err("\nError: bad box\ncaused by: bad key\n".to_string());
    let mut s = initiator();
    assert_eq!(s.decode_msg(error()), error());
    handle(&mut s, hello(), nonce(0, 0, 5));
    let told = "Error: bad box -> caused by: bad key";
    assert_eq!(s.decode_msg(error()), Err(told.to_string()));
    let bbox = ByteBox::new(vec![], nonce(0, 1, 6));
    assert_eq!(s.handle_message(bbox, error(), &fresh()), vec![]);
    assert_eq!(s.server().handshake_state(), &failure(told));
    assert_eq!(s.decode_msg(error()), Err(told.to_string()));
}

#[test]
fn token_message_can_be_built_for_any_token() {
    let mut inner = match responder(None) {
        Signaling::Responder(inner) => inner,
        Signaling::Initiator(_) => panic!("not a responder"),
    };
    inner.identity = ClientIdentity::Responder(9);
    let expected = OpenBox::new(
        Token::new(public(0x10)).into_message(),
        our_nonce(0x31, 9, 1, 500),
    )
    .encrypt_token(&token(0x77));
    assert_eq!(inner.send_token(&token(0x77)), Ok(HandleAction::Reply(expected)));
    assert_eq!(inner.initiator.csn_pair.ours, CombinedSequence::new(500));
    assert_eq!(inner.send_key(), Err("Missing session keypair".to_string()));
}

#[test]
fn session_key_is_generated_once() {
    let mut inner = match responder(None) {
        Signaling::Responder(inner) => inner,
        Signaling::Initiator(_) => panic!("not a responder"),
    };
    assert_eq!(inner.generate_session_key(&key_store(0x50)), Ok(()));
    assert_eq!(
        inner.generate_session_key(&key_store(0x51)),
        Err("Cannot generate new session key: It has already been generated".to_string())
    );
    assert_eq!(inner.session_key, Some(key_store(0x50)));
}

#[test]
fn second_server_hello_is_refused_without_a_cookie() {
    let mut s = initiator();
    s.server_mut().permanent_key = Some(public(0x61));
    assert_eq!(
        s.handle_server_hello(ServerHello::new(public(0x60))),
        Err("Server permanent key is already set".to_string())
    );
    assert_eq!(s.server().permanent_key, Some(public(0x61)));
    assert_eq!(s.server().handshake_state(), &ServerHandshakeState::New);
    assert_eq!(s.server().csn_pair.ours, CombinedSequence::new(99));
}

#[test]
fn server_auth_is_checked_in_every_phase() {
    let auth = |your_cookie| ServerAuth::for_initiator(your_cookie, None, vec![]);
    for phase in [
        SignalingState::ServerHandshake,
        SignalingState::PeerHandshake,
        SignalingState::Task,
    ] {
        let mut inner = match initiator() {
            Signaling::Initiator(inner) => inner,
            Signaling::Responder(_) => panic!("not an initiator"),
        };
        inner.signaling_state = phase;
        let mut s = Signaling::from(inner);
        assert_eq!(
            s.handle_server_auth(auth(cookie(0x30)), &fresh()),
            Err("No identity assigned".to_string())
        );
        s.set_identity(ClientIdentity::Initiator);
        assert_eq!(
            s.handle_server_auth(auth(cookie(0x33)), &fresh()),
            Err("cookie sent in server-auth message does not match our cookie".to_string())
        );
        assert_eq!(s.signaling_state(), phase);
        let result = s.handle_server_auth(auth(cookie(0x30)), &fresh());
        if phase == SignalingState::ServerHandshake {
            assert_eq!(result, Ok(vec![]));
        } else {
            assert_eq!(result, Err("invalid state transition: foo".to_string()));
            assert_eq!(s.signaling_state(), phase);
        }
    }
}

#[test]
fn accepted_message_is_refused_the_second_time() {
    let mut s = initiator();
    handle(&mut s, hello(), nonce(0, 0, 5));
    let again = handle(&mut s, hello(), nonce(0, 0, 5));
    assert_eq!(again, vec![]);
    assert_eq!(
        s.server().handshake_state(),
        &failure("invalid nonce: server CSN hasn't been incremented")
    );
}

#[test]
fn failure_stays() {
    let mut s = initiator();
    let bbox = ByteBox::new(vec![], nonce(0, 0, 5));
    let actions = s.handle_message(bbox, Err("no message".to_string()), &fresh());
    assert_eq!(actions, vec![]);
    assert_eq!(s.server().handshake_state(), &failure("no message"));
    assert_eq!(s.opening(), Err("no message".to_string()));
    // A valid message changes nothing
    assert_eq!(handle(&mut s, hello(), nonce(0, 0, 6)), vec![]);
    assert_eq!(s.server().handshake_state(), &failure("no message"));
    // Another bad nonce is another reason
    assert_eq!(handle(&mut s, hello(), nonce(0, 0, 6)), vec![]);
    assert_eq!(
        s.server().handshake_state(),
        &failure("invalid nonce: server CSN hasn't been incremented")
    );
}

#[test]
fn unexpected_messages_let_the_handshake_fail() {
    let mut s = initiator();
    handle(&mut s, auth_for_initiator(vec![]), nonce(0, 0, 5));
    assert_eq!(
        s.server().handshake_state(),
        &failure("Invalid state transition: New <- server-auth")
    );
    let messages = vec![
        (hello(), "server-hello"),
        (ClientHello::new(public(1)).into_message(), "client-hello"),
        (client_auth(0), "client-auth"),
        (Token::new(public(1)).into_message(), "token"),
        (Key::new(public(1)).into_message(), "key"),
        (Close::new(3001).into_message(), "close"),
    ];
    for (message, name) in messages {
        assert_eq!(message.get_type(), name);
        let mut s = initiator();
        handle(&mut s, hello(), nonce(0, 0, 5));
        assert_eq!(handle(&mut s, message, nonce(0, 1, 6)), vec![]);
        assert_eq!(
            s.server().handshake_state(),
            &failure(&format!("Invalid state transition: ClientInfoSent <- {}", name))
        );
    }
    let mut s = initiator();
    s.server_mut().set_handshake_state(ServerHandshakeState::Done);
    s.server_mut().permanent_key = Some(public(0x60));
    handle(&mut s, hello(), nonce(0, 0, 5));
    assert_eq!(
        s.server().handshake_state(),
        &failure("Invalid state transition: Done <- server-hello")
    );
}

#[test]
fn server_key_is_set_once() {
    let mut s = initiator();
    s.server_mut().permanent_key = Some(public(0x61));
    assert_eq!(handle(&mut s, hello(), nonce(0, 0, 5)), vec![]);
    assert_eq!(
        s.server().handshake_state(),
        &failure("Server permanent key is already set")
    );
    assert_eq!(s.server().permanent_key, Some(public(0x61)));
}

#[test]
fn opening_follows_the_state() {
    let mut s = initiator();
    assert_eq!(s.opening(), Ok(Sealing::Plain));
    handle(&mut s, hello(), nonce(0, 0, 5));
    assert_eq!(
        s.opening(),
        Ok(Sealing::Keys { our_key: key_store(0x10), their_key: public(0x60) })
    );
    s.server_mut().permanent_key = None;
    assert_eq!(s.opening(), Err("Missing server permanent key".to_string()));
    handle(&mut s, auth_for_initiator(vec![]), nonce(0, 1, 6));
    assert_eq!(s.server().handshake_state(), &failure("Missing server permanent key"));
}

#[test]
fn exhausted_numbers_let_the_handshake_fail() {
    let text = "Could not increment CSN: overflow number has reached its maximum";
    let last = CombinedSequence { overflow: 0xffff, sequence: 0xffff_ffff };
    let mut s = initiator();
    s.server_mut().csn_pair.ours = last;
    assert_eq!(handle(&mut s, hello(), nonce(0, 0, 5)), vec![]);
    assert_eq!(s.server().handshake_state(), &failure(text));
    // One number is enough for an initiator, but not for a responder
    let one_left = CombinedSequence { overflow: 0xffff, sequence: 0xffff_fffe };
    let mut s = initiator();
    s.server_mut().csn_pair.ours = one_left;
    assert_eq!(handle(&mut s, hello(), nonce(0, 0, 5)).len(), 1);
    let mut s = responder(None);
    s.server_mut().csn_pair.ours = one_left;
    assert_eq!(handle(&mut s, hello(), nonce(0, 0, 5)), vec![]);
    assert_eq!(s.server().handshake_state(), &failure(text));
}

#[test]
fn exhausted_numbers_for_the_initiator_let_the_handshake_fail() {
    let text = "Could not increment CSN: overflow number has reached its maximum";
    for (auth_token, sequence) in [(Some(token(1)), 0xffff_ffff), (Some(token(1)), 0xffff_fffe)] {
        let mut inner = match responder(auth_token) {
            Signaling::Responder(inner) => inner,
            Signaling::Initiator(_) => panic!("not a responder"),
        };
        inner.initiator.csn_pair.ours = CombinedSequence { overflow: 0xffff, sequence };
        let mut s = Signaling::from(inner);
        handle(&mut s, hello(), nonce(0, 0, 5));
        assert_eq!(handle(&mut s, auth_for_responder(true), nonce(0, 9, 6)), vec![]);
        assert_eq!(s.server().handshake_state(), &failure(text));
    }
}

#[test]
fn session_key_must_not_be_the_permanent_key() {
    let s = responder(None);
    assert!(!s.accepts_session_key(&key_store(0x10)));
    assert!(s.accepts_session_key(&key_store(0x50)));
}

#[test]
fn getters_tell_what_was_given() {
    let s = initiator();
    assert_eq!(s.role(), Role::Initiator);
    assert_eq!(s.auth_token(), Some(&token(0x20)));
    assert_eq!(s.permanent_key(), &key_store(0x10));
    assert_eq!(s.ping_interval(), 0);
    let s = responder(None);
    assert_eq!(s.role(), Role::Responder);
    assert_eq!(s.auth_token(), None);
    assert_eq!(s.as_responder().initiator.permanent_key(), Some(&public(0x18)));
    assert_eq!(s.as_responder().initiator.identity(), Identity::Initiator);
    let inner = InitiatorSignaling::new(key_store(1), token(2), Seed::new(cookie(3), 4));
    assert_eq!(inner.server.cookie_pair, CookiePair { ours: cookie(3), theirs: None });
    assert_eq!(Signaling::from(inner).role(), Role::Initiator);
    assert_eq!(SUBPROTOCOL, "v1.saltyrtc.org");
}

/// A responder whose task has taken over.
fn in_task(sequence: CombinedSequence) -> Signaling {
    let mut inner = ResponderSignaling::new(
        key_store(0x10),
        public(0x18),
        None,
        Seed::new(cookie(0x30), 99),
        Seed::new(cookie(0x31), 499),
    );
    inner.signaling_state = SignalingState::Task;
    inner.identity = ClientIdentity::Responder(9);
    inner.session_key = Some(key_store(0x50));
    inner.initiator.session_key = Some(public(0x19));
    inner.initiator.csn_pair.ours = sequence;
    Signaling::from(inner)
}

#[test]
fn task_messages_are_numbered_one_after_the_other() {
    let mut s = in_task(CombinedSequence { overflow: 0, sequence: u32::MAX - 1 });
    let value = rmpv::Value::from("value");
    let first = s.encode_task_message(value.clone()).unwrap();
    assert_eq!(first.payload, Payload::Task(value));
    assert_eq!(first.nonce, our_nonce(0x31, 9, 1, u32::MAX));
    assert_eq!(
        first.sealing,
        Sealing::Keys { our_key: key_store(0x50), their_key: public(0x19) }
    );
    let second = s.encode_close_message(CloseCode::Handover).unwrap();
    assert_eq!(second.payload, Payload::Message(Close::new(3003).into_message()));
    assert_eq!(second.nonce.csn, CombinedSequenceSnapshot::new(1, 0));
    assert_eq!(second.sealing, first.sealing);
}

#[test]
fn initiator_sends_to_the_picked_responder() {
    let mut inner = InitiatorSignaling::new(key_store(1), token(2), Seed::new(cookie(3), 4));
    inner.signaling_state = SignalingState::Task;
    inner.identity = ClientIdentity::Initiator;
    inner.session_key = Some(key_store(0x50));
    let mut context = ResponderContext::new(Address(7), Seed::new(cookie(8), 9));
    context.session_key = Some(public(0x51));
    inner.responders.insert(7, context);
    let mut s = Signaling::from(inner);
    assert_eq!(
        s.encode_close_message(CloseCode::Handover),
        Err(SignalingError::Crash("No peer selected".to_string()))
    );
    let mut inner = match s {
        Signaling::Initiator(inner) => inner,
        Signaling::Responder(_) => panic!("not an initiator"),
    };
    inner.responder = Some(Address(6));
    let mut s = Signaling::from(inner);
    assert_eq!(
        s.encode_close_message(CloseCode::Handover),
        Err(SignalingError::Crash("No peer selected".to_string()))
    );
    let mut inner = match s {
        Signaling::Initiator(inner) => inner,
        Signaling::Responder(_) => panic!("not an initiator"),
    };
    inner.responder = Some(Address(7));
    let mut s = Signaling::from(inner);
    let out = s.encode_close_message(CloseCode::Handover).unwrap();
    assert_eq!(out.nonce, our_nonce(8, 1, 7, 10));
    assert_eq!(s.as_initiator().responders[&7].csn_pair.ours, CombinedSequence::new(10));
}

#[test]
fn nothing_can_be_sent_to_the_peer_without_keys_and_numbers() {
    let mut s = initiator();
    assert_eq!(
        s.encode_task_message(rmpv::Value::Nil),
        Err(SignalingError::Crash("Signaling is not in task state".to_string()))
    );
    let mut s = in_task(CombinedSequence { overflow: 0xffff, sequence: 0xffff_ffff });
    assert_eq!(s.encode_task_message(rmpv::Value::Nil), Err(SignalingError::CsnOverflow));
    let mut inner = match s {
        Signaling::Responder(inner) => inner,
        Signaling::Initiator(_) => panic!("not a responder"),
    };
    inner.initiator.session_key = None;
    let mut s = Signaling::from(inner);
    assert_eq!(
        s.encode_task_message(rmpv::Value::Nil),
        Err(SignalingError::Crash("Missing session key of the peer".to_string()))
    );
    let mut inner = match s {
        Signaling::Responder(inner) => inner,
        Signaling::Initiator(_) => panic!("not a responder"),
    };
    inner.session_key = None;
    let mut s = Signaling::from(inner);
    assert_eq!(
        s.encode_task_message(rmpv::Value::Nil),
        Err(SignalingError::Crash("Missing session keypair".to_string()))
    );
}

#[test]
fn errors_have_texts() {
    let text = |e: SignalingError| e.text();
    assert_eq!(text(SignalingError::Crypto("a".to_string())), "crypto error: a");
    assert_eq!(text(SignalingError::Decode("a".to_string())), "decode error: a");
    assert_eq!(text(SignalingError::Protocol("a".to_string())), "protocol error: a");
    assert_eq!(text(SignalingError::Crash("a".to_string())), "crash: a");
    assert_eq!(text(SignalingError::CsnOverflow), "CSN overflow");
    assert_eq!(
        text(SignalingError::InvalidStateTransition("a".to_string())),
        "invalid state transition: a"
    );
}

#[test]
fn callers_see_known_errors_and_crashes() {
    let seen = |e: SignalingError| e.into_salty();
    let a = || "a".to_string();
    assert_eq!(seen(SignalingError::Crypto(a())), SaltyError::Crypto(a()));
    assert_eq!(seen(SignalingError::Decode(a())), SaltyError::Decode(a()));
    assert_eq!(seen(SignalingError::Protocol(a())), SaltyError::Protocol(a()));
    assert_eq!(seen(SignalingError::Crash(a())), SaltyError::Crash(a()));
    assert_eq!(
        seen(SignalingError::CsnOverflow),
        SaltyError::Crash("Unexpected signaling error: CSN overflow".to_string())
    );
    assert_eq!(
        seen(SignalingError::InvalidStateTransition(a())),
        SaltyError::Crash("Unexpected signaling error: invalid state transition: a".to_string())
    );
}

#[test]
fn sequence_numbers_count_up_to_the_last() {
    let mut csn = CombinedSequence::new(41);
    assert_eq!(csn.increment(), Ok(CombinedSequenceSnapshot::new(0, 42)));
    let mut csn = CombinedSequence { overflow: 7, sequence: 0xffff_ffff };
    assert_eq!(csn.increment(), Ok(CombinedSequenceSnapshot::new(8, 0)));
    let mut csn = CombinedSequence { overflow: 0xffff, sequence: 0xffff_ffff };
    assert_eq!(csn.increment(), Err(CsnOverflow));
    assert_eq!(csn, CombinedSequence { overflow: 0xffff, sequence: 0xffff_ffff });
    assert_eq!(CombinedSequenceSnapshot::new(258, 50_595_078).number(), 1_108_152_157_446);
    assert_eq!(
        CombinedSequencePair::new(5),
        CombinedSequencePair { ours: CombinedSequence::new(5), theirs: None }
    );
}

#[test]
fn contexts_start_with_their_seed() {
    let seed = Seed::new(cookie(8), 9);
    let context = ResponderContext::new(Address(7), seed);
    assert_eq!(context.identity(), Identity::Responder(7));
    assert_eq!(context.permanent_key(), None);
    assert_eq!(context.session_key(), None);
    assert_eq!(context.cookie_pair(), &CookiePair::new(cookie(8)));
    assert_eq!(context.csn_pair(), &CombinedSequencePair::new(9));
    let context = InitiatorContext::new(public(1), seed);
    assert_eq!(context.identity(), Identity::Initiator);
    assert_eq!(context.permanent_key(), Some(&public(1)));
    assert_eq!(context.session_key(), None);
    assert_eq!(context.handshake_state(), &InitiatorHandshakeState::New);
    assert_eq!(context.cookie_pair(), &CookiePair::new(cookie(8)));
    assert_eq!(context.csn_pair(), &CombinedSequencePair::new(9));
}

#[test]
fn names_of_addresses_and_identities() {
    assert_eq!(Address(0x0f).text(), "Address(0x0f)");
    assert_eq!(Address(0xff).text(), "Address(0xff)");
    assert_eq!(ClientIdentity::Unknown.text(), "Unknown");
    assert_eq!(ClientIdentity::Initiator.text(), "Initiator");
    assert_eq!(ClientIdentity::Responder(200).text(), "Responder(200)");
    assert_eq!(Identity::Server.text(), "server");
    assert_eq!(Identity::Initiator.text(), "initiator");
    assert_eq!(Identity::Responder(10).text(), "responder 10");
    assert_eq!(Role::Responder.text(), "Responder");
}
