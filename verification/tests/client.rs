use saltyrtc_client::boxes::{ByteBox, OpenBox, OutBox, Payload, Sealing};
use saltyrtc_client::connection::{
    check_subprotocol, close_frame, connect_error, decode_next_message, decode_ws_message,
    describe_close, handshake_step, parse_url, preprocess_ws_message, task_step, url_result,
    CloseFrame, HandshakeStep, PipelineAction, TaskStep, WsMessage, WsMessageDecoded,
};
use saltyrtc_client::crypto::{AuthToken, KeyPair, PrivateKey, PublicKey};
use saltyrtc_client::errors::{BuilderError, SaltyError, SignalingError};
use saltyrtc_client::host::is_readable;
use saltyrtc_client::protocol::cookie::{Cookie, Seed};
use saltyrtc_client::protocol::csn::{CombinedSequence, CombinedSequenceSnapshot};
use saltyrtc_client::protocol::messages::{Close, Message, ServerAuth, ServerHello};
use saltyrtc_client::protocol::model::Fresh;
use saltyrtc_client::protocol::nonce::Nonce;
use saltyrtc_client::protocol::state::{ServerHandshakeState, SignalingState};
use saltyrtc_client::protocol::types::{Address, ClientIdentity, HandleAction};
use saltyrtc_client::protocol::Signaling;
use saltyrtc_client::task::{NoTask, Tasks};
use saltyrtc_client::text::{decimal_text, hex_byte_text, one_line_text};
use saltyrtc_client::{CloseCode, Role, SaltyClient, SaltyClientBuilder};
use std::time::Duration;

fn key_pair(n: u8) -> KeyPair {
    KeyPair::new(PublicKey { bytes: [n; 32] }, PrivateKey { bytes: [n + 1; 32] })
}

fn cookie(n: u8) -> Cookie {
    Cookie::new([n; 16])
}

fn seed(n: u8) -> Seed {
    Seed::new(cookie(n), n as u32)
}

fn token() -> AuthToken {
    AuthToken { bytes: [0x20; 32] }
}

fn fresh() -> Fresh {
    Fresh { session_key: key_pair(0x50), seeds: [seed(0x51); 256] }
}

fn builder() -> SaltyClientBuilder<&'static str> {
    SaltyClientBuilder::new(key_pair(0x10))
}

fn initiator() -> SaltyClient<&'static str> {
    match builder().add_task("task").initiator(token(), seed(0x30)) {
        Ok(client) => client,
        Err(_) => panic!("no client"),
    }
}

fn nonce(destination: u8, sequence: u32) -> Nonce {
    Nonce::new(
        cookie(1),
        Address(0),
        Address(destination),
        CombinedSequenceSnapshot::new(0, sequence),
    )
}

fn hello() -> Message {
    ServerHello::new(PublicKey { bytes: [0x60; 32] }).into_message()
}

fn out_box(n: u16) -> OutBox {
    OpenBox::new(Close::new(n).into_message(), nonce(0, n as u32)).encode()
}

// The builder

#[test]
fn builder_needs_a_task() {
    assert_eq!(
        builder().initiator(token(), seed(0x30)).err(),
        Some(BuilderError::MissingTask)
    );
    assert_eq!(
        builder().responder(PublicKey { bytes: [1; 32] }, None, seed(1), seed(2)).err(),
        Some(BuilderError::MissingTask)
    );
    assert_eq!(Tasks::<u8>::from_vec(vec![]).err(), Some(NoTask));
}

#[test]
fn builder_keeps_the_order_of_the_tasks() {
    let client = match builder()
        .add_task("first")
        .add_task("second")
        .add_task("third")
        .initiator(token(), seed(0x30))
    {
        Ok(client) => client,
        Err(_) => panic!("no client"),
    };
    assert_eq!(client.tasks.tasks, vec!["first", "second", "third"]);
    assert_eq!(client.task(), None);
}

#[test]
fn builder_makes_an_initiator() {
    let client = initiator();
    assert_eq!(client.role(), Role::Initiator);
    assert_eq!(client.auth_token(), Some(&token()));
    assert_eq!(client.signaling.permanent_key(), &key_pair(0x10));
    assert_eq!(client.signaling.ping_interval(), 0);
    assert_eq!(client.signaling.identity(), ClientIdentity::Unknown);
    assert_eq!(client.signaling.server().handshake_state(), &ServerHandshakeState::New);
}

#[test]
fn builder_makes_a_responder() {
    let pubkey = PublicKey { bytes: [0x18; 32] };
    let client = match builder().add_task("task").responder(pubkey, None, seed(1), seed(2)) {
        Ok(client) => client,
        Err(_) => panic!("no client"),
    };
    assert_eq!(client.role(), Role::Responder);
    assert_eq!(client.auth_token(), None);
    let context = &client.signaling.as_responder().initiator;
    assert_eq!(context.permanent_key, pubkey);
    assert_eq!(context.cookie_pair.ours, cookie(2));
    assert_eq!(client.signaling.server().cookie_pair.ours, cookie(1));
}

#[test]
fn ping_interval_is_requested_in_whole_seconds() {
    let requested = |interval: Option<Duration>| {
        let client = match builder()
            .add_task("task")
            .with_ping_interval(interval)
            .initiator(token(), seed(0x30))
        {
            Ok(client) => client,
            Err(_) => panic!("no client"),
        };
        client.signaling.ping_interval()
    };
    assert_eq!(requested(Some(Duration::from_millis(13_370))), 13);
    assert_eq!(requested(Some(Duration::from_secs(60))), 60);
    assert_eq!(requested(Some(Duration::from_millis(999))), 0);
    assert_eq!(requested(Some(Duration::from_secs(0))), 0);
    assert_eq!(requested(None), 0);
}

#[test]
fn ping_interval_reaches_the_server() {
    let mut client = match builder()
        .add_task("task")
        .with_ping_interval(Some(Duration::from_millis(13_370)))
        .initiator(token(), seed(0x30))
    {
        Ok(client) => client,
        Err(_) => panic!("no client"),
    };
    let bbox = ByteBox::new(vec![], nonce(0, 5));
    let actions = client.handle_message(bbox, Ok(hello()), &fresh()).unwrap();
    match &actions[0] {
        HandleAction::Reply(out) => match &out.payload {
            Payload::Message(Message::ClientAuth(auth)) => assert_eq!(auth.ping_interval, 13),
            other => panic!("unexpected payload {:?}", other),
        },
        other => panic!("unexpected action {:?}", other),
    }
}

// The client

#[test]
fn client_reports_failures() {
    let mut client = initiator();
    assert!(client.handles(&nonce(0, 5)));
    assert_eq!(client.opening(), Ok(Sealing::Plain));
    let bbox = ByteBox::new(vec![], nonce(0, 5));
    let result = client.handle_message(bbox, Err("bad bytes".to_string()), &fresh());
    assert_eq!(result, Err(SignalingError::Protocol("bad bytes".to_string())));
    // From now on, every message is answered with the reason
    let bbox = ByteBox::new(vec![], nonce(0, 6));
    let result = client.handle_message(bbox, Ok(hello()), &fresh());
    assert_eq!(result, Err(SignalingError::Protocol("bad bytes".to_string())));
}

#[test]
fn client_does_the_server_handshake() {
    let mut client = initiator();
    let step = client
        .handshake_message(ByteBox::new(vec![], nonce(0, 5)), Ok(hello()), &fresh())
        .unwrap();
    assert_eq!(step.messages.len(), 1);
    assert!(!step.handshake_done);
    let auth = ServerAuth::for_initiator(cookie(0x30), None, vec![Address(2)]).into_message();
    let step = client
        .handshake_message(ByteBox::new(vec![], nonce(1, 6)), Ok(auth), &fresh())
        .unwrap();
    assert_eq!(step, HandshakeStep { messages: vec![], handshake_done: false });
    assert_eq!(client.signaling.signaling_state(), SignalingState::PeerHandshake);
    assert!(!client.handles(&nonce(1, 7)));
}

#[test]
fn client_reports_failures_of_the_handshake() {
    let mut client = initiator();
    let result = client.handshake_message(
        ByteBox::new(vec![], nonce(7, 5)),
        Ok(hello()),
        &fresh(),
    );
    assert_eq!(
        result,
        Err(SaltyError::Protocol(
            "invalid nonce: bad destination: Address(0x07) (our identity is Unknown)".to_string()
        ))
    );
}

#[test]
fn client_does_not_handle_messages_from_the_initiator() {
    let pubkey = PublicKey { bytes: [0x18; 32] };
    let mut client = match builder().add_task("task").responder(pubkey, None, seed(2), seed(3)) {
        Ok(client) => client,
        Err(_) => panic!("no client"),
    };
    client.handle_message(ByteBox::new(vec![], nonce(0, 5)), Ok(hello()), &fresh()).unwrap();
    let mut from_initiator = nonce(9, 6);
    from_initiator.source = Address(1);
    assert!(!client.handles(&from_initiator));
    assert!(client.handles(&nonce(9, 6)));
}

#[test]
fn client_encrypts_for_the_peer() {
    let pubkey = PublicKey { bytes: [0x18; 32] };
    let mut client = match builder().add_task("task").responder(pubkey, None, seed(1), seed(2)) {
        Ok(client) => client,
        Err(_) => panic!("no client"),
    };
    assert_eq!(
        client.encrypt_task_message(rmpv::Value::from(1)),
        Err(SaltyError::Crash("Signaling is not in task state".to_string()))
    );
    if let Signaling::Responder(s) = &mut client.signaling {
        s.signaling_state = SignalingState::Task;
        s.session_key = Some(key_pair(0x50));
        s.initiator.session_key = Some(pubkey);
        s.identity = ClientIdentity::Responder(3);
    }
    let out = client.encrypt_task_message(rmpv::Value::from(1)).unwrap();
    assert_eq!(out.payload, Payload::Task(rmpv::Value::from(1)));
    assert_eq!(out.nonce.csn, CombinedSequenceSnapshot::new(0, 3));
    let out = client.encrypt_close_message(CloseCode::ProtocolError).unwrap();
    assert_eq!(out.payload, Payload::Message(Close::new(3001).into_message()));
    assert_eq!(out.nonce.csn, CombinedSequenceSnapshot::new(0, 4));
    if let Signaling::Responder(s) = &mut client.signaling {
        s.initiator.csn_pair.ours = CombinedSequence { overflow: 0xffff, sequence: 0xffff_ffff };
    }
    assert_eq!(
        client.encrypt_close_message(CloseCode::ProtocolError),
        Err(SaltyError::Crash("Unexpected signaling error: CSN overflow".to_string()))
    );
}

#[test]
fn client_needs_a_selected_task() {
    let mut client = initiator();
    assert_eq!(client.selected_task(), Err(SaltyError::Crash("Task not set".to_string())));
    client.task = Some("task");
    assert_eq!(client.selected_task(), Ok(&"task"));
    assert_eq!(client.task(), Some(&"task"));
}

#[test]
fn client_tells_why_a_message_is_discarded() {
    let client = initiator();
    assert_eq!(client.discard_reason(&nonce(0, 5)), None);
    let mut from_responder = nonce(0, 5);
    from_responder.source = Address(7);
    assert_eq!(
        client.discard_reason(&from_responder),
        Some("bad source: Address(0x07) (our identity is Unknown)".to_string())
    );
    // A message to another address is not discarded: the handshake fails
    from_responder.destination = Address(1);
    assert_eq!(client.discard_reason(&from_responder), None);
}

#[test]
fn client_does_not_take_its_permanent_key_as_session_key() {
    let client = initiator();
    assert!(!client.accepts_session_key(&key_pair(0x10)));
    assert!(client.accepts_session_key(&key_pair(0x50)));
}

// Close codes

#[test]
fn close_codes_have_numbers() {
    let codes = [
        (CloseCode::WsGoingAway, 1001, "WsGoingAway (1001)"),
        (CloseCode::WsProtocolError, 1002, "WsProtocolError (1002)"),
        (CloseCode::PathFull, 3000, "PathFull (3000)"),
        (CloseCode::ProtocolError, 3001, "ProtocolError (3001)"),
        (CloseCode::InternalError, 3002, "InternalError (3002)"),
        (CloseCode::Handover, 3003, "Handover (3003)"),
        (CloseCode::DroppedByInitiator, 3004, "DroppedByInitiator (3004)"),
        (CloseCode::InitiatorCouldNotDecrypt, 3005, "InitiatorCouldNotDecrypt (3005)"),
        (CloseCode::NoSharedTask, 3006, "NoSharedTask (3006)"),
        (CloseCode::InvalidKey, 3007, "InvalidKey (3007)"),
    ];
    for (code, number, text) in codes {
        assert_eq!(code.as_number(), number);
        assert_eq!(CloseCode::from_number(number), Some(code));
        assert_eq!(code.text(), text);
    }
    for number in [0, 1000, 1003, 2999, 3008, 65535] {
        assert_eq!(CloseCode::from_number(number), None);
    }
}

#[test]
fn close_frames_tell_the_reason() {
    assert_eq!(
        close_frame(Some(CloseCode::Handover)),
        CloseFrame { status_code: 3003, reason: "Handover (3003)".to_string() }
    );
    assert_eq!(close_frame(None), CloseFrame { status_code: 1001, reason: String::new() });
}

#[test]
fn received_close_frames_are_described() {
    let describe = |status_code: u16, reason: &str| {
        describe_close(&Some(CloseFrame { status_code, reason: reason.to_string() }))
    };
    assert_eq!(
        describe(3001, ""),
        "Server closed connection with close code ProtocolError (3001)"
    );
    assert_eq!(
        describe(3001, "why"),
        "Server closed connection with close code ProtocolError (3001) (why)"
    );
    assert_eq!(describe(4000, ""), "Server closed connection with unknown close code 4000");
    assert_eq!(
        describe(4000, "why"),
        "Server closed connection with unknown close code 4000 (why)"
    );
    assert_eq!(describe_close(&None), "Server closed connection without close code");
}

// The connection

#[test]
fn url_is_read_and_normalized() {
    assert_eq!(
        read("wss://Server.Example:8765/path"),
        Ok("wss://server.example:8765/path".to_string())
    );
    assert_eq!(read("wss://server.example"), Ok("wss://server.example/".to_string()));
    assert_eq!(
        read("server"),
        Err(SaltyError::Decode(
            "Could not parse URL: relative URL without a base".to_string()
        ))
    );
    assert_eq!(url_result(Ok("a".to_string())), Ok("a".to_string()));
    assert_eq!(
        url_result(Err("b".to_string())),
        Err(SaltyError::Decode("Could not parse URL: b".to_string()))
    );
}

/// Read a URL from a text that is readable.
fn read(url: &str) -> Result<String, SaltyError> {
    assert!(is_readable(url));
    parse_url(url)
}

#[test]
fn texts_on_which_the_encoder_counts_too_far_are_not_readable() {
    assert!(!is_readable(&format!("wss://{}\u{10ff70}", "a".repeat(3855))));
    assert!(!is_readable(&format!("wss://{}\u{29f96}", "a".repeat(24999))));
    assert!(!is_readable(&format!("file://{}\u{10ff70}/", "a".repeat(3855))));
    assert!(!is_readable(&format!(" W\tSs:\n\\/u:p@{}\u{10ff70}:80", "a".repeat(3855))));
    assert!(!is_readable(&format!("wss:x.{}%F4%8F%BD%B0", "a".repeat(3855))));
    // Nor are those that may get such characters from Punycode
    assert!(!is_readable(&format!("wss://xn--{}\u{fc}", "a".repeat(3900))));
}

#[test]
fn labels_may_be_as_long_as_the_encoder_can_count() {
    let label = |letters: usize, last: &str| format!("wss://{}{}", "a".repeat(letters), last);
    // A character outside of the low ones weighs 4, and 3855 is the limit
    assert!(is_readable(&label(3851, "\u{10ff70}")));
    assert!(!is_readable(&label(3852, "\u{10ff70}")));
    // With low characters alone it is 65534
    assert!(is_readable(&label(65530, "\u{fc}")));
    assert!(!is_readable(&label(65531, "\u{fc}")));
    // Those that become many weigh more
    assert!(is_readable(&format!("wss://{}", "\u{fdfa}".repeat(214))));
    assert!(!is_readable(&format!("wss://{}", "\u{fdfa}".repeat(215))));
    assert!(is_readable(&format!("wss://{}", "\u{321d}".repeat(9362))));
    assert!(!is_readable(&format!("wss://{}", "\u{321d}".repeat(9363))));
    assert!(is_readable(&format!("wss://{}", "%EF%B7%BA".repeat(214))));
    assert!(!is_readable(&format!("wss://{}", "%EF%B7%BA".repeat(215))));
    // Every label counts by itself
    let labels = format!("{}\u{10ff70}.", "a".repeat(3000)).repeat(3);
    assert!(is_readable(&format!("wss://{}", labels)));
}

#[test]
fn only_the_host_has_to_be_encoded() {
    let long = "%C3%A9\u{10ff70}".repeat(2000);
    assert!(is_readable(&format!("wss://server.example/{}?{}#{}", long, long, long)));
    assert!(is_readable(&format!("wss://{}:{}@server.example:8765/", long, long)));
    assert!(is_readable(&format!("wss://server.example:{}", long)));
    assert!(is_readable(&format!("wss://[{}", long)));
    assert!(is_readable(&format!("other://{}/", long)));
    assert!(is_readable(&format!("file:{}", long)));
    assert!(is_readable(&format!("file:/{}", long)));
    assert!(is_readable(&format!("file:///{}", long)));
    assert!(is_readable(&long));
    assert!(is_readable(""));
    // A colon in brackets does not end the host
    assert!(!is_readable(&format!("wss://a[:{}", long)));
}

#[test]
fn readable_urls_are_read_as_they_are() {
    let escaped = "%C3%A9".repeat(500);
    assert_eq!(
        read(&format!("wss://server.example/{}", escaped)),
        Ok(format!("wss://server.example/{}", escaped))
    );
    let user = "%".repeat(201);
    assert_eq!(read(&format!("ws://{}@h/", user)), Ok(format!("ws://{}@h/", user)));
    let label = "a".repeat(5000);
    assert_eq!(read(&format!("wss://{}", label)), Ok(format!("wss://{}/", label)));
    for n in [201, 5000] {
        let host = read(&format!("wss://{}/", "\u{fc}".repeat(n))).unwrap();
        assert!(host.starts_with("wss://xn--"));
    }
    assert_eq!(
        read("wss://b\u{fc}cher.example"),
        Ok("wss://xn--bcher-kva.example/".to_string())
    );
    // The longest that the encoder can take, for some characters
    let refused = Err(SaltyError::Decode(
        "Could not parse URL: invalid international domain name".to_string(),
    ));
    assert_eq!(read(&format!("wss://{}", "\u{fdfa}".repeat(214))), refused);
    assert_eq!(read(&format!("wss://{}\u{10ff70}", "a".repeat(3851))), refused);
}

#[test]
fn connect_errors_tell_the_cause() {
    assert_eq!(
        connect_error("a", None),
        SaltyError::Network("Could not connect to server: a".to_string())
    );
    assert_eq!(
        connect_error("a", Some("b")),
        SaltyError::Network("Could not connect to server: a: b".to_string())
    );
}

#[test]
fn server_must_choose_our_subprotocol() {
    let chosen = |names: &[&str]| {
        check_subprotocol(Some(names.iter().map(|n| n.to_string()).collect()))
    };
    let more = || {
        Err(SaltyError::Protocol(
            "More than one websocket subprotocol chosen by server".to_string(),
        ))
    };
    assert_eq!(chosen(&["v1.saltyrtc.org"]), Ok(()));
    assert_eq!(chosen(&["v1.saltyrtc.org", "v1.saltyrtc.org"]), more());
    assert_eq!(chosen(&["v0.saltyrtc.org"]), more());
    assert_eq!(chosen(&[]), more());
    assert_eq!(
        check_subprotocol(None),
        Err(SaltyError::Protocol("Websocket subprotocol not accepted by server".to_string()))
    );
}

#[test]
fn websocket_messages_are_decoded() {
    let mut bytes: Vec<u8> = (1..=24).collect();
    bytes.extend_from_slice(&[0xaa, 0xbb]);
    let expected = ByteBox::new(
        vec![0xaa, 0xbb],
        Nonce::new(
            Cookie::new([1, 2, 3, 4, 5, 6, 7, 8, 9, 10, 11, 12, 13, 14, 15, 16]),
            Address(17),
            Address(18),
            CombinedSequenceSnapshot::new(19 * 256 + 20, 0x15161718),
        ),
    );
    assert_eq!(
        decode_ws_message(WsMessage::Binary(bytes)),
        Ok(WsMessageDecoded::ByteBox(expected))
    );
    assert_eq!(
        decode_ws_message(WsMessage::Binary(vec![0; 23])),
        Err(SaltyError::Protocol("decode error: message is too short".to_string()))
    );
    assert_eq!(
        decode_ws_message(WsMessage::Ping(vec![1, 2])),
        Ok(WsMessageDecoded::Ping(vec![1, 2]))
    );
    assert_eq!(
        decode_ws_message(WsMessage::Pong(vec![1, 2])),
        Ok(WsMessageDecoded::Ignore)
    );
    assert_eq!(
        decode_ws_message(WsMessage::Text("hello".to_string())),
        Ok(WsMessageDecoded::Ignore)
    );
    assert_eq!(
        decode_ws_message(WsMessage::Close(None)),
        Err(SaltyError::Network("Server message stream ended".to_string()))
    );
}

#[test]
fn stream_must_not_end_without_close_message() {
    assert_eq!(
        decode_next_message(None),
        Err(SaltyError::Network(
            "Server message stream ended without close message".to_string()
        ))
    );
    assert_eq!(
        decode_next_message(Some(WsMessage::Pong(vec![]))),
        Ok(WsMessageDecoded::Ignore)
    );
}

#[test]
fn pings_are_answered() {
    assert_eq!(
        preprocess_ws_message(WsMessageDecoded::Ping(vec![1, 2])),
        PipelineAction::Pong(vec![1, 2])
    );
    assert_eq!(preprocess_ws_message(WsMessageDecoded::Ignore), PipelineAction::Skip);
    let bbox = || ByteBox::new(vec![3], nonce(0, 5));
    assert_eq!(
        preprocess_ws_message(WsMessageDecoded::ByteBox(bbox())),
        PipelineAction::ByteBox(bbox())
    );
}

#[test]
fn handshake_collects_replies_in_order() {
    let actions = vec![
        HandleAction::Reply(out_box(1)),
        HandleAction::HandshakeDone,
        HandleAction::Reply(out_box(2)),
    ];
    assert_eq!(
        handshake_step(actions),
        Ok(HandshakeStep { messages: vec![out_box(1), out_box(2)], handshake_done: true })
    );
    assert_eq!(
        handshake_step(vec![]),
        Ok(HandshakeStep { messages: vec![], handshake_done: false })
    );
}

#[test]
fn handshake_has_nothing_for_the_task() {
    assert_eq!(
        handshake_step(vec![
            HandleAction::Reply(out_box(1)),
            HandleAction::TaskMessage(rmpv::Value::Nil),
            HandleAction::TaskClose(CloseCode::Handover),
        ]),
        Err(SaltyError::Crash("Received task message during handshake".to_string()))
    );
    assert_eq!(
        handshake_step(vec![
            HandleAction::TaskClose(CloseCode::Handover),
            HandleAction::TaskMessage(rmpv::Value::Nil),
        ]),
        Err(SaltyError::Crash("Received close message during handshake".to_string()))
    );
}

#[test]
fn task_loop_forwards_in_order() {
    let actions = vec![
        HandleAction::TaskMessage(rmpv::Value::from(1)),
        HandleAction::Reply(out_box(1)),
        HandleAction::TaskMessage(rmpv::Value::from(2)),
        HandleAction::Reply(out_box(2)),
    ];
    assert_eq!(
        task_step(actions, false),
        Ok(TaskStep::Forward {
            outgoing: vec![out_box(1), out_box(2)],
            incoming: vec![rmpv::Value::from(1), rmpv::Value::from(2)],
        })
    );
}

#[test]
fn task_loop_ends_with_the_first_close_message() {
    let actions = || {
        vec![
            HandleAction::Reply(out_box(1)),
            HandleAction::TaskClose(CloseCode::Handover),
            HandleAction::TaskClose(CloseCode::InternalError),
            HandleAction::HandshakeDone,
        ]
    };
    assert_eq!(task_step(actions(), true), Ok(TaskStep::Close(CloseCode::Handover)));
    assert_eq!(
        task_step(actions(), false),
        Err(SaltyError::Crash("Task not set".to_string()))
    );
    assert_eq!(
        task_step(
            vec![HandleAction::HandshakeDone, HandleAction::TaskClose(CloseCode::Handover)],
            true
        ),
        Err(SaltyError::Crash("Got HandleAction::HandshakeDone in task loop".to_string()))
    );
}

// Values on the wire

#[test]
fn byte_boxes_survive_the_wire() {
    let nonce = Nonce::new(
        Cookie::new([1, 2, 3, 4, 5, 6, 7, 8, 9, 10, 11, 12, 13, 14, 15, 16]),
        Address(17),
        Address(18),
        CombinedSequenceSnapshot::new(258, 50_595_078),
    );
    let bytes = ByteBox::new(vec![1, 2, 3], nonce).into_bytes();
    assert_eq!(
        bytes,
        vec![
            1, 2, 3, 4, 5, 6, 7, 8, 9, 10, 11, 12, 13, 14, 15, 16, 17, 18, 1, 2, 3, 4, 5, 6, 1, 2,
            3
        ]
    );
    assert_eq!(ByteBox::from_slice(&bytes), Ok(ByteBox::new(vec![1, 2, 3], nonce)));
    assert_eq!(ByteBox::from_slice(&bytes[..24]), Ok(ByteBox::new(vec![], nonce)));
    assert_eq!(
        ByteBox::from_slice(&bytes[..23]),
        Err(SignalingError::Decode("message is too short".to_string()))
    );
    assert_eq!(Nonce::read(&bytes), nonce);
    let mut out = vec![0xff];
    nonce.write(&mut out);
    assert_eq!(&out[1..], &bytes[..24]);
}

#[test]
fn keys_have_32_bytes() {
    assert_eq!(PublicKey::from_slice(&[7; 32]), Some(PublicKey { bytes: [7; 32] }));
    assert_eq!(PublicKey::from_slice(&[7; 31]), None);
    assert_eq!(PublicKey::from_slice(&[7; 33]), None);
    let mut other = [7; 32];
    other[31] = 8;
    assert_ne!(PublicKey { bytes: [7; 32] }, PublicKey { bytes: other });
    assert_ne!(key_pair(1), key_pair(2));
    assert_eq!(key_pair(1).private_key(), &PrivateKey { bytes: [2; 32] });
}

#[test]
fn texts_are_told_in_one_line() {
    assert_eq!(one_line_text(""), "");
    assert_eq!(one_line_text("one"), "one");
    assert_eq!(one_line_text(" \n\u{a0}Error: a\n  caused by: b\r\n\t"), "Error: a ->   caused by: b");
    assert_eq!(one_line_text("\n\n\u{2003}"), "");
    assert_eq!(one_line_text("a\n\nb"), "a ->  -> b");
    let text = "\u{3000}\u{85}x \u{200b} y\u{2028}\u{1680}";
    assert_eq!(one_line_text(text), text.trim().replace("\n", " -> "));
}

#[test]
fn numbers_are_written_out() {
    assert_eq!(decimal_text(0), "0");
    assert_eq!(decimal_text(10), "10");
    assert_eq!(decimal_text(65535), "65535");
    assert_eq!(hex_byte_text(0), "00");
    assert_eq!(hex_byte_text(0xa5), "a5");
    assert_eq!(hex_byte_text(0xff), "ff");
}
