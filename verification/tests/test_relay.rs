use rshare::server::handshake::{
    ConnectFailure, Handshake, HandshakeAction, HandshakeEvent, HandshakePhase,
};
use rshare::server::relay::{ListenResponse, RelayClient, ServeResponse, TransferRole};
use rshare::utils::error::ErrorKind;

fn full_response() -> ListenResponse {
    ListenResponse {
        status: "paired".to_string(),
        session_id: Some("abc-123".to_string()),
        sender_fp: Some("aa".to_string()),
        filename: Some("f.txt".to_string()),
        file_size: Some(9),
        signature: Some("bb".to_string()),
        file_hash: Some("cc".to_string()),
        socket_port: Some(10000),
        message: String::new(),
        sender_ephemeral_key: Some("dd".to_string()),
        receiver_ephemeral_key: Some("ee".to_string()),
    }
}

#[test]
fn test_role_names() {
    assert_eq!(TransferRole::Sender.as_str(), "sender");
    assert_eq!(TransferRole::Receiver.as_str(), "receiver");
}

#[test]
fn test_urls_and_address() {
    let client = RelayClient::new("203.0.113.9".to_string(), 8080, 10000);
    assert_eq!(client.health_url(), "http://203.0.113.9:8080/actuator/health");
    assert_eq!(client.serve_url(), "http://203.0.113.9:8080/api/relay/serve");
    assert_eq!(client.listen_url(), "http://203.0.113.9:8080/api/relay/listen");
    assert_eq!(client.socket_address(), "203.0.113.9:10000");
    let client = RelayClient::new("localhost".to_string(), 0, 65535);
    assert_eq!(client.health_url(), "http://localhost:0/actuator/health");
    assert_eq!(client.socket_address(), "localhost:65535");
}

#[test]
fn test_http_status() {
    for status in [200u16, 201, 204, 299] {
        assert!(RelayClient::check_status(status).is_ok());
        assert!(RelayClient::check_health(status).is_ok());
    }
    for status in [0u16, 100, 199, 300, 404, 500, 65535] {
        assert!(RelayClient::check_status(status).is_err());
        assert!(RelayClient::check_health(status).is_err());
    }
    let error = RelayClient::check_status(404).unwrap_err();
    assert_eq!(error.kind(), ErrorKind::NetworkError);
    assert_eq!(error.message(), "Connection timeout or refused, Status: 404");
    let error = RelayClient::check_health(503).unwrap_err();
    assert_eq!(error.kind(), ErrorKind::NetworkError);
    assert_eq!(error.message(), "Health API failed with status :503");
    let error = RelayClient::malformed_response();
    assert_eq!(error.kind(), ErrorKind::SessionError);
    assert_eq!(error.message(), "Failed to parse session response");
}

#[test]
fn test_session_from_serve() {
    let session = RelayClient::session_from_serve(ServeResponse {
        status: "waiting".to_string(),
        session_id: "abc-123".to_string(),
        socket_port: 10000,
        message: String::new(),
        receiver_ephemeral_key: None,
    });
    assert_eq!(session.session_id(), "abc-123");
    assert_eq!(session.role(), TransferRole::Sender);
    assert!(session.receiver_ephemeral_key.is_none());
    assert!(session.filename.is_none());
    assert!(session.file_size.is_none());
    assert!(session.sender_ephemeral_key.is_none());

    let session = RelayClient::session_from_serve(ServeResponse {
        status: "paired".to_string(),
        session_id: "abc-124".to_string(),
        socket_port: 10000,
        message: String::new(),
        receiver_ephemeral_key: Some("0011".to_string()),
    });
    assert_eq!(session.receiver_ephemeral_key.as_deref(), Some("0011"));
}

#[test]
fn test_session_from_listen() {
    let session = RelayClient::session_from_listen(full_response()).unwrap();
    assert_eq!(session.session_id(), "abc-123");
    assert_eq!(session.role(), TransferRole::Receiver);
    assert_eq!(session.sender_fp.as_deref(), Some("aa"));
    assert_eq!(session.filename.as_deref(), Some("f.txt"));
    assert_eq!(session.file_size, Some(9));
    assert_eq!(session.signature.as_deref(), Some("bb"));
    assert_eq!(session.file_hash.as_deref(), Some("cc"));
    assert_eq!(session.sender_ephemeral_key.as_deref(), Some("dd"));
    assert_eq!(session.receiver_ephemeral_key.as_deref(), Some("ee"));
}

#[test]
fn test_listen_response_with_missing_fields() {
    let cases: [(fn(&mut ListenResponse), &str); 9] = [
        (|r| r.session_id = None, "Server did not return session_id"),
        (|r| r.filename = None, "Server did not return filename"),
        (|r| r.file_size = None, "Server did not return file_size"),
        (|r| r.signature = None, "Server did not return signature"),
        (|r| r.sender_fp = None, "Server did not return sender_fp"),
        (|r| r.file_hash = None, "Server did not return file_hash"),
        (|r| r.socket_port = None, "Server did not return socket_port"),
        (|r| r.sender_ephemeral_key = None, "Server did not return sender ephemeral key"),
        (|r| r.receiver_ephemeral_key = None, "Server did not return receiver ephemeral key"),
    ];
    for (remove, message) in cases {
        let mut response = full_response();
        remove(&mut response);
        let error = RelayClient::session_from_listen(response).unwrap_err();
        assert_eq!(error.kind(), ErrorKind::SessionError);
        assert_eq!(error.message(), message);
    }
    // The first missing field is reported.
    let mut response = full_response();
    response.file_hash = None;
    response.filename = None;
    let error = RelayClient::session_from_listen(response).unwrap_err();
    assert_eq!(error.message(), "Server did not return filename");
    // An answer that lacks nothing but the port of the socket is refused too.
    let mut response = full_response();
    response.socket_port = None;
    let error = RelayClient::answer_to_listen(200, Some(response)).unwrap_err();
    assert_eq!(error.kind(), ErrorKind::SessionError);
    assert_eq!(error.message(), "Server did not return socket_port");
    let mut response = full_response();
    response.socket_port = None;
    response.receiver_ephemeral_key = None;
    let error = RelayClient::session_from_listen(response).unwrap_err();
    assert_eq!(error.message(), "Server did not return socket_port");
}

#[test]
fn test_handshake_in_order() {
    let client = RelayClient::new("127.0.0.1".to_string(), 8080, 10000);
    let mut handshake = Handshake::new(&client, "abc-123", TransferRole::Receiver);
    assert_eq!(handshake.phase(), HandshakePhase::Idle);
    match handshake.step(HandshakeEvent::Start) {
        HandshakeAction::Connect { address, nodelay, buffer_size } => {
            assert_eq!(address, "127.0.0.1:10000");
            assert!(nodelay);
            assert_eq!(buffer_size, 4 * 1024 * 1024);
        }
        other => panic!("unexpected action {:?}", other),
    }
    match handshake.step(HandshakeEvent::Connected) {
        HandshakeAction::Write(line) => assert_eq!(line, b"abc-123:receiver\n"),
        other => panic!("unexpected action {:?}", other),
    }
    match handshake.step(HandshakeEvent::Written) {
        HandshakeAction::ReadExact(len) => assert_eq!(len, 6),
        other => panic!("unexpected action {:?}", other),
    }
    assert_eq!(handshake.phase(), HandshakePhase::AwaitingReady);
    match handshake.step(HandshakeEvent::Read(b"READY\n".to_vec())) {
        HandshakeAction::Write(ack) => assert_eq!(ack, b"ACK\n"),
        other => panic!("unexpected action {:?}", other),
    }
    match handshake.step(HandshakeEvent::Written) {
        HandshakeAction::Sleep(millis) => assert_eq!(millis, 100),
        other => panic!("unexpected action {:?}", other),
    }
    assert_eq!(handshake.phase(), HandshakePhase::Settling);
    match handshake.step(HandshakeEvent::Slept) {
        HandshakeAction::Done => {}
        other => panic!("unexpected action {:?}", other),
    }
    assert_eq!(handshake.phase(), HandshakePhase::Paired);
}

#[test]
fn test_handshake_first_line_of_the_sender() {
    let client = RelayClient::new("127.0.0.1".to_string(), 8080, 10000);
    let mut handshake = Handshake::new(&client, "sëssion", TransferRole::Sender);
    handshake.step(HandshakeEvent::Start);
    match handshake.step(HandshakeEvent::Connected) {
        HandshakeAction::Write(line) => assert_eq!(line, "sëssion:sender\n".as_bytes()),
        other => panic!("unexpected action {:?}", other),
    }
}

fn awaiting_ready() -> Handshake {
    let client = RelayClient::new("127.0.0.1".to_string(), 8080, 10000);
    let mut handshake = Handshake::new(&client, "abc-123", TransferRole::Sender);
    handshake.step(HandshakeEvent::Start);
    handshake.step(HandshakeEvent::Connected);
    handshake.step(HandshakeEvent::Written);
    handshake
}

#[test]
fn test_handshake_without_ready() {
    for (bytes, message) in [
        (b"NOPE!\n".to_vec(), "Expected READY signal, got: NOPE!"),
        (b"ready\n".to_vec(), "Expected READY signal, got: ready"),
        (b"READY".to_vec(), "Expected READY signal, got: READY"),
        (b"  \xff \n\n".to_vec(), "Expected READY signal, got: \u{fffd}"),
    ] {
        let mut handshake = awaiting_ready();
        match handshake.step(HandshakeEvent::Read(bytes)) {
            HandshakeAction::Fail(error) => {
                assert_eq!(error.kind(), ErrorKind::NetworkError);
                assert_eq!(error.message(), message);
            }
            other => panic!("unexpected action {:?}", other),
        }
        assert_eq!(handshake.phase(), HandshakePhase::Failed);
        // Nothing is acknowledged afterwards.
        match handshake.step(HandshakeEvent::Read(b"READY\n".to_vec())) {
            HandshakeAction::Fail(_) => {}
            other => panic!("unexpected action {:?}", other),
        }
    }
}

#[test]
fn test_handshake_failures() {
    let cases = [
        (ConnectFailure::Address, "Invalid socket address: 127.0.0.1:10000"),
        (ConnectFailure::Socket, "Failed to connect to socket server: 127.0.0.1:10000"),
        (ConnectFailure::NoDelay, "Failed to set TCP_NODELAY"),
        (ConnectFailure::SendBuffer, "Failed to set send buffer"),
        (ConnectFailure::ReceiveBuffer, "Failed to set recv buffer"),
        (ConnectFailure::Connect, "Failed to connect to socket server"),
    ];
    for (failure, message) in cases {
        let client = RelayClient::new("127.0.0.1".to_string(), 8080, 10000);
        let mut handshake = Handshake::new(&client, "abc-123", TransferRole::Sender);
        handshake.step(HandshakeEvent::Start);
        match handshake.step(HandshakeEvent::ConnectFailed(failure)) {
            HandshakeAction::Fail(error) => {
                assert_eq!(error.kind(), ErrorKind::NetworkError);
                assert_eq!(error.message(), message);
            }
            other => panic!("unexpected action {:?}", other),
        }
    }

    let client = RelayClient::new("127.0.0.1".to_string(), 8080, 10000);
    let mut handshake = Handshake::new(&client, "abc-123", TransferRole::Sender);
    handshake.step(HandshakeEvent::Start);
    handshake.step(HandshakeEvent::Connected);
    match handshake.step(HandshakeEvent::Failed) {
        HandshakeAction::Fail(error) => assert_eq!(error.message(), "Failed to send handshake"),
        other => panic!("unexpected action {:?}", other),
    }

    let mut handshake = awaiting_ready();
    match handshake.step(HandshakeEvent::Failed) {
        HandshakeAction::Fail(error) => assert_eq!(error.message(), "Failed to read READY signal"),
        other => panic!("unexpected action {:?}", other),
    }

    let mut handshake = awaiting_ready();
    handshake.step(HandshakeEvent::Read(b"READY\n".to_vec()));
    match handshake.step(HandshakeEvent::Failed) {
        HandshakeAction::Fail(error) => assert_eq!(error.message(), "Failed to send ACK"),
        other => panic!("unexpected action {:?}", other),
    }
}

#[test]
fn test_handshake_out_of_order() {
    let client = RelayClient::new("127.0.0.1".to_string(), 8080, 10000);
    let mut handshake = Handshake::new(&client, "abc-123", TransferRole::Sender);
    // No acknowledgement before the relay is ready.
    match handshake.step(HandshakeEvent::Read(b"READY\n".to_vec())) {
        HandshakeAction::Fail(error) => {
            assert_eq!(error.kind(), ErrorKind::NetworkError);
            assert_eq!(error.message(), "Handshake out of order");
        }
        other => panic!("unexpected action {:?}", other),
    }
    assert_eq!(handshake.phase(), HandshakePhase::Failed);
}

#[test]
fn test_answers_of_the_relay() {
    let serve = || ServeResponse {
        status: "paired".to_string(),
        session_id: "abc-123".to_string(),
        socket_port: 10000,
        message: String::new(),
        receiver_ephemeral_key: Some("ee".to_string()),
    };
    let session = RelayClient::answer_to_serve(200, Some(serve())).unwrap();
    assert_eq!(session.session_id(), "abc-123");
    assert_eq!(session.role(), TransferRole::Sender);
    assert_eq!(session.receiver_ephemeral_key.as_deref(), Some("ee"));

    // A refusal wins over whatever the body holds.
    let error = RelayClient::answer_to_serve(502, Some(serve())).unwrap_err();
    assert_eq!(error.kind(), ErrorKind::NetworkError);
    assert_eq!(error.message(), "Connection timeout or refused, Status: 502");
    let error = RelayClient::answer_to_serve(200, None).unwrap_err();
    assert_eq!(error.kind(), ErrorKind::SessionError);
    assert_eq!(error.message(), "Failed to parse session response");

    let session = RelayClient::answer_to_listen(201, Some(full_response())).unwrap();
    assert_eq!(session.role(), TransferRole::Receiver);
    assert_eq!(session.file_size, Some(9));
    let error = RelayClient::answer_to_listen(404, None).unwrap_err();
    assert_eq!(error.kind(), ErrorKind::NetworkError);
    assert_eq!(error.message(), "Connection timeout or refused, Status: 404");
    let error = RelayClient::answer_to_listen(200, None).unwrap_err();
    assert_eq!(error.kind(), ErrorKind::SessionError);
    assert_eq!(error.message(), "Failed to parse session response");
    let mut response = full_response();
    response.signature = None;
    let error = RelayClient::answer_to_listen(200, Some(response)).unwrap_err();
    assert_eq!(error.kind(), ErrorKind::SessionError);
    assert_eq!(error.message(), "Server did not return signature");
}
