use saltyrtc_client::boxes::ByteBox;
use saltyrtc_client::crypto::{AuthToken, KeyStore, PrivateKey, PublicKey};
use saltyrtc_client::protocol::context::{PeerContext, ServerContext};
use saltyrtc_client::protocol::cookie::{Cookie, CookiePair, Seed};
use saltyrtc_client::protocol::csn::CombinedSequenceSnapshot;
use saltyrtc_client::protocol::messages::{Message, ServerAuth, ServerHello};
use saltyrtc_client::protocol::model::Fresh;
use saltyrtc_client::protocol::nonce::Nonce;
use saltyrtc_client::protocol::state::{
    InitiatorHandshakeState, ServerHandshakeState, SignalingState,
};
use saltyrtc_client::protocol::types::{Address, ClientIdentity, HandleAction, Identity, Role};
use saltyrtc_client::protocol::Signaling;

fn key_store(n: u8) -> KeyStore {
    KeyStore::new(PublicKey { bytes: [n; 32] }, PrivateKey { bytes: [n + 1; 32] })
}

fn cookie(n: u8) -> Cookie {
    Cookie::new([n; 16])
}

fn seed(n: u8) -> Seed {
    Seed::new(cookie(n), 1000 * n as u32)
}

fn fresh() -> Fresh {
    Fresh { session_key: key_store(0x50), seeds: [seed(0x51); 256] }
}

fn csn() -> CombinedSequenceSnapshot {
    CombinedSequenceSnapshot::new(0, 50_595_078)
}

fn server_hello() -> Message {
    ServerHello::new(PublicKey { bytes: [0x60; 32] }).into_message()
}

fn new_initiator() -> Signaling {
    Signaling::new_initiator(key_store(0x10), AuthToken { bytes: [0x20; 32] }, seed(0x30))
}

fn new_responder() -> Signaling {
    let initiator_pubkey = PublicKey::from_slice(&[0u8; 32]).unwrap();
    Signaling::new_responder(key_store(0x10), initiator_pubkey, None, seed(0x30), seed(0x31))
}

/// Hand a message to the signaling that was opened without an error.
fn handle(s: &mut Signaling, msg: Message, nonce: Nonce) -> Vec<HandleAction> {
    assert_eq!(s.signaling_state(), SignalingState::ServerHandshake);
    assert!(!s.is_from_initiator(&nonce));
    assert!(s.accepts_session_key(&fresh().session_key));
    s.handle_message(ByteBox::new(vec![1, 2, 3], nonce), Ok(msg), &fresh())
}

fn failure(msg: &str) -> ServerHandshakeState {
    ServerHandshakeState::Failure(msg.to_string())
}

// Validation of nonces

/// A client MUST check that the destination address targets its assigned
/// identity (or 0x00 during authentication).
#[test]
fn first_message_wrong_destination() {
    let mut s = new_initiator();
    let nonce = Nonce::new(cookie(1), Address(0), Address(1), csn());

    assert_eq!(s.server().handshake_state(), &ServerHandshakeState::New);
    let actions = handle(&mut s, server_hello(), nonce);
    assert_eq!(
        s.server().handshake_state(),
        &failure("invalid nonce: bad destination: Address(0x01) (our identity is Unknown)")
    );
    assert_eq!(actions, vec![]);
}

/// An initiator SHALL ONLY process messages from the server (0x00). As
/// soon as the initiator has been assigned an identity, it MAY ALSO accept
/// messages from other responders (0x02..0xff). Other messages SHALL be
/// discarded and SHOULD trigger a warning.
#[test]
fn wrong_source_initiator() {
    let mut s = new_initiator();
    let make_nonce = |src: u8, dest: u8| Nonce::new(cookie(1), Address(src), Address(dest), csn());

    // Handling messages from initiator is always invalid
    assert_eq!(s.server().handshake_state(), &ServerHandshakeState::New);
    let actions = handle(&mut s, server_hello(), make_nonce(0x01, 0x00));
    assert_eq!(s.server().handshake_state(), &ServerHandshakeState::New);
    assert_eq!(actions, vec![]);

    // Handling messages from responder is invalid as long as identity
    // hasn't been assigned.
    assert_eq!(s.server().handshake_state(), &ServerHandshakeState::New);
    let actions = handle(&mut s, server_hello(), make_nonce(0xff, 0x00));
    assert_eq!(s.server().handshake_state(), &ServerHandshakeState::New);
    assert_eq!(actions, vec![]);

    // Handling messages from the server is always valid
    assert_eq!(s.server().handshake_state(), &ServerHandshakeState::New);
    let actions = handle(&mut s, server_hello(), make_nonce(0x00, 0x00));
    assert_eq!(s.server().handshake_state(), &ServerHandshakeState::ClientInfoSent);
    // Send only client-auth
    assert_eq!(actions.len(), 1);
}

/// A responder SHALL ONLY process messages from the server (0x00). As soon
/// as the responder has been assigned an identity, it MAY ALSO accept
/// messages from the initiator (0x01). Other messages SHALL be discarded
/// and SHOULD trigger a warning.
#[test]
fn wrong_source_responder() {
    let mut s = new_responder();
    let make_nonce = |src: u8, dest: u8| Nonce::new(cookie(1), Address(src), Address(dest), csn());

    // Handling messages from a responder is always invalid
    assert_eq!(s.server().handshake_state(), &ServerHandshakeState::New);
    let actions = handle(&mut s, server_hello(), make_nonce(0x03, 0x00));
    assert_eq!(s.server().handshake_state(), &ServerHandshakeState::New);
    assert_eq!(actions, vec![]);

    // Handling messages from initiator is invalid as long as identity
    // hasn't been assigned.
    assert_eq!(s.server().handshake_state(), &ServerHandshakeState::New);
    let actions = handle(&mut s, server_hello(), make_nonce(0x01, 0x00));
    assert_eq!(s.server().handshake_state(), &ServerHandshakeState::New);
    assert_eq!(actions, vec![]);

    // Handling messages from the server is always valid
    assert_eq!(s.server().handshake_state(), &ServerHandshakeState::New);
    let actions = handle(&mut s, server_hello(), make_nonce(0x00, 0x00));
    assert_eq!(s.server().handshake_state(), &ServerHandshakeState::ClientInfoSent);
    // Send client-hello and client-auth
    assert_eq!(actions.len(), 2);
}

/// In case this is the first message received from the sender, the peer
/// MUST check that the overflow number of the source peer is 0
#[test]
fn first_message_bad_overflow_number() {
    let mut s = new_initiator();
    let cs = CombinedSequenceSnapshot::new(1, 1234);
    let nonce = Nonce::new(cookie(1), Address(0), Address(0), cs);

    assert_eq!(s.server().handshake_state(), &ServerHandshakeState::New);
    let actions = handle(&mut s, server_hello(), nonce);
    assert_eq!(
        s.server().handshake_state(),
        &failure("invalid nonce: first message from server must have set the overflow number to 0")
    );
    assert_eq!(actions, vec![]);
}

/// The state after a server-hello and a server-auth message with the given numbers.
fn state_after(first: CombinedSequenceSnapshot, second: CombinedSequenceSnapshot) -> Signaling {
    let mut s = new_initiator();
    let nonce = Nonce::new(cookie(1), Address(0), Address(0), first);
    assert_eq!(handle(&mut s, server_hello(), nonce).len(), 1);
    let auth = ServerAuth::for_initiator(cookie(0x30), None, vec![]).into_message();
    let nonce = Nonce::new(cookie(1), Address(0), Address(1), second);
    assert_eq!(handle(&mut s, auth, nonce), vec![]);
    s
}

/// The peer MUST check that the combined sequence number of the source
/// peer has been increased by 1 and has not reset to 0.
#[test]
fn sequence_number_incremented() {
    let at = CombinedSequenceSnapshot::new;
    let first = at(0, 1234);
    assert_eq!(
        state_after(first, at(0, 1235)).server().handshake_state(),
        &ServerHandshakeState::Done
    );
    assert_eq!(
        state_after(first, at(0, 1234)).server().handshake_state(),
        &failure("invalid nonce: server CSN hasn't been incremented")
    );
    assert_eq!(
        state_after(first, at(0, 1233)).server().handshake_state(),
        &failure("invalid nonce: server CSN is lower than last time")
    );
    assert_eq!(
        state_after(first, at(0, 0)).server().handshake_state(),
        &failure("invalid nonce: server CSN is lower than last time")
    );
    assert_eq!(
        state_after(first, at(0, 1236)).server().handshake_state(),
        &failure("invalid nonce: server CSN has been incremented by more than 1")
    );
    assert_eq!(
        state_after(at(0, u32::MAX), at(1, 0)).server().handshake_state(),
        &ServerHandshakeState::Done
    );
}

/// In case this is the first message received from the sender, the
/// peer MUST check that the sender's cookie is different than its own
/// cookie.
#[test]
fn cookie_differs_from_own() {
    let mut s = new_initiator();
    let own = s.server().cookie_pair.ours;
    let nonce = Nonce::new(own, Address(0), Address(0), csn());

    assert_eq!(s.server().handshake_state(), &ServerHandshakeState::New);
    let actions = handle(&mut s, server_hello(), nonce);
    assert_eq!(
        s.server().handshake_state(),
        &failure("invalid nonce: cookie from server is identical to our own cookie")
    );
    assert_eq!(actions, vec![]);
}

/// The peer MUST check that the cookie of the sender does not change.
#[test]
fn cookie_did_not_change() {
    let mut s = new_initiator();
    let nonce = Nonce::new(cookie(1), Address(0), Address(0), csn());
    handle(&mut s, server_hello(), nonce);
    assert_eq!(s.server().cookie_pair.theirs, Some(cookie(1)));
    let auth = ServerAuth::for_initiator(cookie(0x30), None, vec![]).into_message();
    let next = CombinedSequenceSnapshot::new(0, 50_595_079);
    let nonce = Nonce::new(cookie(2), Address(0), Address(1), next);
    let actions = handle(&mut s, auth, nonce);
    assert_eq!(
        s.server().handshake_state(),
        &failure("invalid nonce: cookie from server has changed")
    );
    assert_eq!(actions, vec![]);
    assert_eq!(s.server().cookie_pair.theirs, Some(cookie(1)));
}

// Signaling messages

struct TestContext {
    our_cookie: Cookie,
    server_cookie: Cookie,
    signaling: Signaling,
}

fn make_test_signaling(
    role: Role,
    identity: ClientIdentity,
    handshake_state: ServerHandshakeState,
    auth_token: Option<AuthToken>,
) -> TestContext {
    let our_cookie = cookie(0x40);
    let server_cookie = cookie(0x41);
    let mut signaling = match role {
        Role::Initiator => new_initiator(),
        Role::Responder => {
            let initiator_pubkey = PublicKey::from_slice(&[0u8; 32]).unwrap();
            Signaling::new_responder(
                key_store(0x10),
                initiator_pubkey,
                auth_token,
                seed(0x30),
                seed(0x31),
            )
        }
    };
    signaling.set_identity(identity);
    signaling.server_mut().set_handshake_state(handshake_state);
    signaling.server_mut().cookie_pair =
        CookiePair { ours: our_cookie, theirs: Some(server_cookie) };
    signaling.server_mut().permanent_key = Some(*key_store(0x42).public_key());
    TestContext { our_cookie, server_cookie, signaling }
}

fn make_test_nonce(ctx: &TestContext, dest_address: Address) -> Nonce {
    Nonce::new(ctx.server_cookie, Address(0), dest_address, csn())
}

/// Assert that handling the specified message fails in ClientInfoSent
/// state with the specified error message.
fn assert_client_info_sent_fail(ctx: &mut TestContext, message: Message, nonce: Nonce, msg: &str) {
    assert_eq!(
        ctx.signaling.server().handshake_state(),
        &ServerHandshakeState::ClientInfoSent
    );
    let actions = handle(&mut ctx.signaling, message, nonce);
    assert_eq!(ctx.signaling.server().handshake_state(), &failure(msg));
    assert_eq!(actions, vec![]);
}

// When the client receives a 'server-auth' message, it MUST have
// accepted and set its identity as described in the Receiving a
// Signalling Message section.
#[test]
fn server_auth_no_identity() {
    let ctx = make_test_signaling(
        Role::Responder,
        ClientIdentity::Unknown,
        ServerHandshakeState::ClientInfoSent,
        None,
    );

    // Prepare a ServerAuth message
    let msg = ServerAuth::for_responder(ctx.our_cookie, None, false).into_message();
    let nonce = make_test_nonce(&ctx, Address(13));

    // Handle message
    let mut s = ctx.signaling;
    assert_eq!(s.server().handshake_state(), &ServerHandshakeState::ClientInfoSent);
    let actions = handle(&mut s, msg, nonce);
    assert_eq!(s.identity(), ClientIdentity::Responder(13));
    assert_eq!(actions, vec![]);
}

// The peer MUST check that the cookie provided in the your_cookie
// field contains the cookie the client has used in its
// previous and messages to the server.
#[test]
fn server_auth_your_cookie() {
    let mut ctx = make_test_signaling(
        Role::Initiator,
        ClientIdentity::Initiator,
        ServerHandshakeState::ClientInfoSent,
        None,
    );
    let msg = ServerAuth::for_initiator(cookie(0x77), None, vec![]).into_message();
    let nonce = make_test_nonce(&ctx, Address(1));
    assert_client_info_sent_fail(
        &mut ctx,
        msg,
        nonce,
        "cookie sent in server-auth message does not match our cookie",
    );
}

#[test]
fn server_auth_initiator_wrong_fields() {
    let mut ctx = make_test_signaling(
        Role::Initiator,
        ClientIdentity::Initiator,
        ServerHandshakeState::ClientInfoSent,
        None,
    );
    let msg = ServerAuth::for_responder(ctx.our_cookie, None, true).into_message();
    let nonce = make_test_nonce(&ctx, Address(1));
    assert_client_info_sent_fail(
        &mut ctx,
        msg,
        nonce,
        "we're the initiator, but the `initiator_connected` field in the server-auth message is set",
    );
}

#[test]
fn server_auth_initiator_missing_fields() {
    let mut ctx = make_test_signaling(
        Role::Initiator,
        ClientIdentity::Initiator,
        ServerHandshakeState::ClientInfoSent,
        None,
    );
    let msg = ServerAuth {
        your_cookie: ctx.our_cookie,
        signed_keys: None,
        responders: None,
        initiator_connected: None,
    }
    .into_message();
    let nonce = make_test_nonce(&ctx, Address(1));
    assert_client_info_sent_fail(
        &mut ctx,
        msg,
        nonce,
        "`responders` field in server-auth message not set",
    );
}

#[test]
fn server_auth_initiator_duplicate_fields() {
    let mut ctx = make_test_signaling(
        Role::Initiator,
        ClientIdentity::Initiator,
        ServerHandshakeState::ClientInfoSent,
        None,
    );
    let responders = vec![Address(2), Address(3), Address(3)];
    let msg = ServerAuth::for_initiator(ctx.our_cookie, None, responders).into_message();
    let nonce = make_test_nonce(&ctx, Address(1));
    assert_client_info_sent_fail(
        &mut ctx,
        msg,
        nonce,
        "`responders` field in server-auth message may not contain duplicates",
    );
}

#[test]
fn server_auth_initiator_invalid_fields() {
    let mut ctx = make_test_signaling(
        Role::Initiator,
        ClientIdentity::Initiator,
        ServerHandshakeState::ClientInfoSent,
        None,
    );
    let responders = vec![Address(1), Address(2), Address(3)];
    let msg = ServerAuth::for_initiator(ctx.our_cookie, None, responders).into_message();
    let nonce = make_test_nonce(&ctx, Address(1));
    assert_client_info_sent_fail(
        &mut ctx,
        msg,
        nonce,
        "`responders` field in server-auth message may not contain addresses <0x02",
    );
}

/// The client SHOULD store the responder's identities in its internal
/// list of responders.
#[test]
fn server_auth_initiator_stored_responder() {
    let ctx = make_test_signaling(
        Role::Initiator,
        ClientIdentity::Initiator,
        ServerHandshakeState::ClientInfoSent,
        None,
    );
    let responders = vec![Address(2), Address(3)];
    let msg = ServerAuth::for_initiator(ctx.our_cookie, None, responders).into_message();
    let nonce = make_test_nonce(&ctx, Address(1));

    // Handle message
    let mut s = ctx.signaling;
    assert_eq!(s.server().handshake_state(), &ServerHandshakeState::ClientInfoSent);
    match s {
        Signaling::Initiator(ref i) => assert_eq!(i.responders.len(), 0),
        Signaling::Responder(_) => panic!("Invalid inner signaling type"),
    };
    let actions = handle(&mut s, msg, nonce);
    assert_eq!(s.server().handshake_state(), &ServerHandshakeState::Done);
    match s {
        Signaling::Initiator(ref i) => assert_eq!(i.responders.len(), 2),
        Signaling::Responder(_) => panic!("Invalid inner signaling type"),
    };
    assert_eq!(actions, vec![]);
    let responder = &s.as_initiator().responders[&3];
    assert_eq!(responder.identity(), Identity::Responder(3));
    assert_eq!(responder.cookie_pair, CookiePair { ours: cookie(0x51), theirs: None });
}

/// The client SHALL check that the initiator_connected field contains
/// a boolean value.
#[test]
fn server_auth_responder_validate_initiator_connected() {
    let mut ctx = make_test_signaling(
        Role::Responder,
        ClientIdentity::Responder(4),
        ServerHandshakeState::ClientInfoSent,
        None,
    );
    let msg = ServerAuth {
        your_cookie: ctx.our_cookie,
        signed_keys: None,
        responders: None,
        initiator_connected: None,
    }
    .into_message();
    let nonce = make_test_nonce(&ctx, Address(4));
    assert_client_info_sent_fail(
        &mut ctx,
        msg,
        nonce,
        "we're a responder, but the `initiator_connected` field in the server-auth message is not set",
    );
}

/// In case the client is the responder, it SHALL check that the
/// initiator_connected field contains a boolean value. In case the
/// field's value is true, the responder MUST proceed with sending a
/// `token` or `key` client-to-client message described in the
/// Client-to-Client Messages section.
fn server_auth_respond_initiator(ctx: TestContext) -> Vec<HandleAction> {
    // Prepare a ServerAuth message
    let msg = ServerAuth {
        your_cookie: ctx.our_cookie,
        signed_keys: None,
        responders: None,
        initiator_connected: Some(true),
    }
    .into_message();
    let nonce = make_test_nonce(&ctx, Address(7));

    // Signaling ref
    let mut s = ctx.signaling;

    // Handle message
    assert_eq!(s.server().handshake_state(), &ServerHandshakeState::ClientInfoSent);
    assert_eq!(s.as_responder().initiator.handshake_state(), &InitiatorHandshakeState::New);
    let actions = handle(&mut s, msg, nonce);
    assert_eq!(s.server().handshake_state(), &ServerHandshakeState::Done);
    assert_eq!(s.as_responder().initiator.handshake_state(), &InitiatorHandshakeState::KeySent);

    actions
}

#[test]
fn server_auth_respond_initiator_with_token() {
    let ctx = make_test_signaling(
        Role::Responder,
        ClientIdentity::Responder(7),
        ServerHandshakeState::ClientInfoSent,
        Some(AuthToken { bytes: [0x21; 32] }),
    );
    let actions = server_auth_respond_initiator(ctx);
    assert_eq!(actions.len(), 2);
}

#[test]
fn server_auth_respond_initiator_without_token() {
    let ctx = make_test_signaling(
        Role::Responder,
        ClientIdentity::Responder(7),
        ServerHandshakeState::ClientInfoSent,
        None,
    );
    let actions = server_auth_respond_initiator(ctx);
    assert_eq!(actions.len(), 1);
}

/// If processing the server auth message succeeds, the signaling state
/// should change to `PeerHandshake`.
#[test]
fn server_auth_signaling_state_transition() {
    let ctx = make_test_signaling(
        Role::Responder,
        ClientIdentity::Responder(7),
        ServerHandshakeState::ClientInfoSent,
        None,
    );
    let msg = ServerAuth {
        your_cookie: ctx.our_cookie,
        signed_keys: None,
        responders: None,
        initiator_connected: Some(false),
    }
    .into_message();
    let nonce = make_test_nonce(&ctx, Address(7));

    // Signaling ref
    let mut s = ctx.signaling;

    // Handle message
    assert_eq!(s.server().handshake_state(), &ServerHandshakeState::ClientInfoSent);
    assert_eq!(s.signaling_state(), SignalingState::ServerHandshake);
    let actions = handle(&mut s, msg, nonce);
    assert_eq!(s.server().handshake_state(), &ServerHandshakeState::Done);
    assert_eq!(s.signaling_state(), SignalingState::PeerHandshake);
    assert_eq!(actions, vec![]);
}

#[test]
fn server_context_new() {
    let ctx = ServerContext::new(seed(0x30));
    assert_eq!(ctx.identity(), Identity::Server);
    assert_eq!(ctx.permanent_key(), None);
    assert_eq!(ctx.session_key(), None);
}
