use rshare::config::constants::FILE_CHUNK_SIZE;
use rshare::crypto::signing::{SigningKey, VerifyingKey};
use rshare::server::relay::{ListenResponse, RelayClient, ServeRequest, ServeResponse};
use rshare::transfer::receiver::{
    Download, DownloadAction, DownloadEvent, DownloadPhase, Receiver, Rejection,
};
use rshare::transfer::sender::{Sender, Upload, UploadAction, UploadEvent, UploadPhase};
use rshare::utils::error::{Error, ErrorKind, IoFailure};
use rshare::utils::hash::compute_file_hash;

const SESSION_ID: &str = "session-7f3a";

fn identity(seed: u8) -> (SigningKey, VerifyingKey) {
    let signing_key = SigningKey::from_bytes(&[seed; 32]);
    let verifying_key = signing_key.verifying_key();
    (signing_key, verifying_key)
}

/// What the relay tells the receiver for a request of the sender.
fn listen_response(request: &ServeRequest, receiver_ephemeral: &str) -> ListenResponse {
    ListenResponse {
        status: "paired".to_string(),
        session_id: Some(SESSION_ID.to_string()),
        sender_fp: Some(request.sender_fingerprint.clone()),
        filename: Some(request.filename.clone()),
        file_size: Some(request.file_size),
        signature: Some(request.signature.clone()),
        file_hash: Some(request.file_hash.clone()),
        socket_port: Some(10000),
        message: "ok".to_string(),
        sender_ephemeral_key: Some(request.sender_ephemeral_key.clone()),
        receiver_ephemeral_key: Some(receiver_ephemeral.to_string()),
    }
}

/// What the relay tells the sender once the receiver has joined.
fn serve_response(receiver_ephemeral: &str) -> ServeResponse {
    ServeResponse {
        status: "paired".to_string(),
        session_id: SESSION_ID.to_string(),
        socket_port: 10000,
        message: "ok".to_string(),
        receiver_ephemeral_key: Some(receiver_ephemeral.to_string()),
    }
}

/// A sender of `data` and a receiver that expects it, both paired.
fn paired(data: &[u8], announced_hash: &str) -> (Upload, Download) {
    let (alice_key, alice_public) = identity(1);
    let (_, bob_public) = identity(2);
    let sender = Sender::new(
        &alice_key,
        Some(bob_public.fingerprint()),
        "bob",
        "movie.bin",
        data.len() as u64,
        announced_hash,
    )
    .unwrap();
    let receiver = Receiver::new(Some(alice_public.fingerprint()), "alice").unwrap();
    let request = sender.request();
    let receiver_ephemeral = receiver.public_key_hex();
    let session = RelayClient::session_from_listen(listen_response(&request, &receiver_ephemeral))
        .unwrap();
    let download = receiver.accept(&session).ok().unwrap();
    let upload = sender
        .open(&RelayClient::session_from_serve(serve_response(&receiver_ephemeral)))
        .ok()
        .unwrap();
    (upload, download)
}

/// Runs the sender over `data` until it waits for the confirmation. Returns
/// the frames that it wrote.
fn send_all(upload: &mut Upload, data: &[u8]) -> Vec<Vec<u8>> {
    let mut frames = Vec::new();
    let mut position = 0usize;
    let mut action = upload.step(UploadEvent::Start);
    loop {
        action = match action {
            UploadAction::ReadFile(len) => {
                assert_eq!(len, FILE_CHUNK_SIZE);
                let end = usize::min(position + len, data.len());
                let chunk = data[position..end].to_vec();
                position = end;
                upload.step(UploadEvent::FileRead(chunk))
            }
            UploadAction::Send(frame) => {
                frames.push(frame);
                upload.step(UploadEvent::Sent)
            }
            UploadAction::Flush => upload.step(UploadEvent::Flushed),
            UploadAction::ReadAck(len) => {
                assert_eq!(len, 10);
                return frames;
            }
            other => panic!("unexpected action {:?}", other),
        };
    }
}

/// What became of a download.
struct Received {
    /// The output file, unless it was never created or was deleted.
    file: Option<Vec<u8>>,
    /// Whether an output file was ever created.
    created: bool,
    /// What the receiver sent to the sender at the end.
    signal: Option<Vec<u8>>,
    /// The error, where the download failed.
    error: Option<Error>,
    /// The number of writes to the output file.
    writes: usize,
}

/// Runs the receiver over the bytes of `wire`; the connection ends after
/// them.
fn receive_all(download: &mut Download, wire: &[u8]) -> Received {
    let mut file: Option<Vec<u8>> = None;
    let mut created = false;
    let mut writes = 0usize;
    let mut position = 0usize;
    let mut action = download.step(DownloadEvent::Start);
    loop {
        action = match action {
            DownloadAction::Open(name) => {
                assert_eq!(name, "movie.bin");
                file = Some(Vec::new());
                created = true;
                download.step(DownloadEvent::Opened)
            }
            DownloadAction::ReadExact(len) => {
                if position + len <= wire.len() {
                    let bytes = wire[position..position + len].to_vec();
                    position += len;
                    download.step(DownloadEvent::Read(bytes))
                } else {
                    position = wire.len();
                    download.step(DownloadEvent::ReadFailed("early eof".to_string()))
                }
            }
            DownloadAction::Write(plaintext) => {
                file.as_mut().unwrap().extend_from_slice(&plaintext);
                writes += 1;
                assert_eq!(download.received(), file.as_ref().unwrap().len() as u64);
                download.step(DownloadEvent::Written)
            }
            DownloadAction::Hash => {
                let hash = compute_file_hash(file.as_ref().unwrap());
                download.step(DownloadEvent::Hashed(hash))
            }
            DownloadAction::Finish(signal) => {
                return Received { file, created, signal: Some(signal), error: None, writes };
            }
            DownloadAction::Abort { cleanup, signal, error } => {
                if cleanup {
                    file = None;
                }
                return Received { file, created, signal, error: Some(error), writes };
            }
        };
    }
}

fn concat(frames: &[Vec<u8>]) -> Vec<u8> {
    frames.iter().flat_map(|frame| frame.iter().copied()).collect()
}

#[test]
fn test_happy_path_three_chunks() {
    let data = vec![0x55u8; 3_145_728];
    let hash = compute_file_hash(&data);
    let (mut upload, mut download) = paired(&data, &hash);

    let frames = send_all(&mut upload, &data);
    assert_eq!(frames.len(), 3);
    for frame in &frames {
        assert_eq!(frame.len(), 4 + 12 + FILE_CHUNK_SIZE + 16);
        assert_eq!(&frame[..4], &((12 + FILE_CHUNK_SIZE + 16) as u32).to_be_bytes());
    }
    assert_eq!(upload.sent(), 3_145_728);
    assert_eq!(upload.phase(), UploadPhase::AwaitingAck);

    let received = receive_all(&mut download, &concat(&frames));
    assert!(received.error.is_none());
    assert_eq!(received.signal.as_deref(), Some(b"DONE\n".as_ref()));
    assert_eq!(received.writes, 3);
    assert_eq!(received.file.as_deref(), Some(data.as_slice()));
    assert_eq!(download.phase(), DownloadPhase::Done);
    assert_eq!(download.received(), download.file_size());

    match upload.step(UploadEvent::Ack(received.signal.unwrap())) {
        UploadAction::Finish { confirmed } => assert!(confirmed),
        other => panic!("unexpected action {:?}", other),
    }
    assert_eq!(upload.phase(), UploadPhase::Done);
}

#[test]
fn test_chunks_split_on_one_mebibyte() {
    let data: Vec<u8> = (0..FILE_CHUNK_SIZE + 5).map(|i| (i % 251) as u8).collect();
    let hash = compute_file_hash(&data);
    let (mut upload, mut download) = paired(&data, &hash);
    let frames = send_all(&mut upload, &data);
    assert_eq!(frames.len(), 2);
    assert_eq!(frames[0].len(), 4 + 28 + FILE_CHUNK_SIZE);
    assert_eq!(frames[1].len(), 4 + 28 + 5);
    assert_eq!(&frames[1][..4], &[0, 0, 0, 33]);
    let received = receive_all(&mut download, &concat(&frames));
    assert_eq!(received.file.as_deref(), Some(data.as_slice()));
    assert_eq!(received.signal.as_deref(), Some(b"DONE\n".as_ref()));
}

#[test]
fn test_empty_file() {
    let data: Vec<u8> = Vec::new();
    let hash = compute_file_hash(&data);
    let (mut upload, mut download) = paired(&data, &hash);
    let frames = send_all(&mut upload, &data);
    assert!(frames.is_empty());
    let received = receive_all(&mut download, &[]);
    assert!(received.error.is_none());
    assert!(received.created);
    assert_eq!(received.writes, 0);
    assert_eq!(received.file.as_deref(), Some(&[][..]));
    assert_eq!(received.signal.as_deref(), Some(b"DONE\n".as_ref()));
}

#[test]
fn test_wrong_sender_is_refused_before_anything_is_written() {
    let (alice_key, _) = identity(1);
    let (_, bob_public) = identity(2);
    let (_, mallory_public) = identity(3);
    let data = vec![0x55u8; 100];
    let sender = Sender::new(
        &alice_key,
        Some(bob_public.fingerprint()),
        "bob",
        "movie.bin",
        100,
        &compute_file_hash(&data),
    )
    .unwrap();
    // The receiver's contact `alice` has another fingerprint than the sender.
    let receiver = Receiver::new(Some(mallory_public.fingerprint()), "alice").unwrap();
    let session = RelayClient::session_from_listen(listen_response(
        &sender.request(),
        &receiver.public_key_hex(),
    ))
    .unwrap();
    let rejection: Rejection = receiver.accept(&session).err().unwrap();
    assert_eq!(rejection.error.kind(), ErrorKind::InvalidInput);
    let expected = mallory_public.fingerprint();
    let got = sender.request().sender_fingerprint;
    assert_eq!(
        rejection.error.message(),
        format!("Sender fingerprint mismatch! Expected {}, got {}", &expected[..16], &got[..16])
    );
    assert!(rejection.signal.is_none());
}

#[test]
fn test_tampered_file_size_fails_the_signature() {
    let (alice_key, alice_public) = identity(1);
    let (_, bob_public) = identity(2);
    let data = vec![0x55u8; 100];
    let sender = Sender::new(
        &alice_key,
        Some(bob_public.fingerprint()),
        "bob",
        "movie.bin",
        100,
        &compute_file_hash(&data),
    )
    .unwrap();
    let receiver = Receiver::new(Some(alice_public.fingerprint()), "alice").unwrap();
    let mut response = listen_response(&sender.request(), &receiver.public_key_hex());
    response.file_size = Some(101);
    let session = RelayClient::session_from_listen(response).unwrap();
    let rejection = receiver.accept(&session).err().unwrap();
    assert_eq!(rejection.error.kind(), ErrorKind::InvalidInput);
    assert_eq!(rejection.error.message(), "Signature verification failed");
    assert_eq!(rejection.signal.as_deref(), Some(b"ERROR:signature_failed\n".as_ref()));
}

#[test]
fn test_tampered_filename_and_hash_fail_the_signature() {
    let (alice_key, alice_public) = identity(1);
    let (_, bob_public) = identity(2);
    let data = vec![0x55u8; 100];
    let hash = compute_file_hash(&data);
    for field in 0..2 {
        let sender = Sender::new(
            &alice_key,
            Some(bob_public.fingerprint()),
            "bob",
            "movie.bin",
            100,
            &hash,
        )
        .unwrap();
        let receiver = Receiver::new(Some(alice_public.fingerprint()), "alice").unwrap();
        let mut response = listen_response(&sender.request(), &receiver.public_key_hex());
        if field == 0 {
            response.filename = Some("movie.bim".to_string());
        } else {
            response.file_hash = Some(compute_file_hash(b"other"));
        }
        let session = RelayClient::session_from_listen(response).unwrap();
        let rejection = receiver.accept(&session).err().unwrap();
        assert_eq!(rejection.error.message(), "Signature verification failed");
        assert_eq!(rejection.signal.as_deref(), Some(b"ERROR:signature_failed\n".as_ref()));
    }
}

#[test]
fn test_truncated_transfer_deletes_the_file() {
    let data = vec![0x55u8; 3_145_728];
    let hash = compute_file_hash(&data);
    let (mut upload, mut download) = paired(&data, &hash);
    let frames = send_all(&mut upload, &data);
    // The connection ends after the first chunk.
    let received = receive_all(&mut download, &frames[0]);
    assert_eq!(received.writes, 1);
    assert!(received.created);
    assert!(received.file.is_none());
    assert!(received.signal.is_none());
    let error = received.error.unwrap();
    assert_eq!(error.kind(), ErrorKind::InvalidInput);
    assert_eq!(
        error.message(),
        "Transfer interrupted - connection closed before size prefix: early eof"
    );
    assert_eq!(download.phase(), DownloadPhase::Failed);
}

#[test]
fn test_connection_closed_inside_a_chunk() {
    let data = vec![0x55u8; 5000];
    let hash = compute_file_hash(&data);
    let (mut upload, mut download) = paired(&data, &hash);
    let wire = concat(&send_all(&mut upload, &data));
    let received = receive_all(&mut download, &wire[..wire.len() - 1]);
    assert_eq!(received.writes, 0);
    assert!(received.file.is_none());
    let error = received.error.unwrap();
    assert_eq!(error.kind(), ErrorKind::InvalidInput);
    assert_eq!(
        error.message(),
        "Transfer interrupted - connection closed during chunk: early eof"
    );
}

#[test]
fn test_corrupted_middle_chunk_deletes_the_file() {
    let data = vec![0x55u8; 3_145_728];
    let hash = compute_file_hash(&data);
    let (mut upload, mut download) = paired(&data, &hash);
    let mut frames = send_all(&mut upload, &data);
    let middle = frames[1].len() / 2;
    frames[1][middle] ^= 0x01;
    let received = receive_all(&mut download, &concat(&frames));
    // The first chunk was written, the second rejected, the third never read.
    assert_eq!(received.writes, 1);
    assert!(received.file.is_none());
    assert!(received.signal.is_none());
    let error = received.error.unwrap();
    assert_eq!(error.kind(), ErrorKind::CryptoError);
    assert_eq!(
        error.message(),
        "Decryption failed (authentication failure or corrupted data)"
    );
    // Nothing is decrypted after the failure.
    match download.step(DownloadEvent::Read(frames[2][4..].to_vec())) {
        DownloadAction::Abort { cleanup, .. } => assert!(!cleanup),
        other => panic!("unexpected action {:?}", other),
    }
}

#[test]
fn test_hash_mismatch_deletes_the_file() {
    let data = vec![0x55u8; 3_145_728];
    // The sender signs another hash than that of the file.
    let forged = compute_file_hash(b"another file");
    let (mut upload, mut download) = paired(&data, &forged);
    let frames = send_all(&mut upload, &data);
    let received = receive_all(&mut download, &concat(&frames));
    assert_eq!(received.writes, 3);
    assert!(received.file.is_none());
    assert_eq!(received.signal.as_deref(), Some(b"ERROR:hash_mismatch\n".as_ref()));
    let error = received.error.unwrap();
    assert_eq!(error.kind(), ErrorKind::InvalidInput);
    assert_eq!(error.message(), "File integrity check failed");
    match upload.step(UploadEvent::Ack(received.signal.unwrap())) {
        UploadAction::Finish { confirmed } => assert!(!confirmed),
        other => panic!("unexpected action {:?}", other),
    }
}

#[test]
fn test_reordered_chunks_are_caught_by_the_hash() {
    let mut data = vec![0x21u8; FILE_CHUNK_SIZE];
    data.extend_from_slice(&vec![0x22u8; FILE_CHUNK_SIZE]);
    let hash = compute_file_hash(&data);
    let (mut upload, mut download) = paired(&data, &hash);
    let mut frames = send_all(&mut upload, &data);
    // The relay swaps the two frames: every blob decrypts, the file differs.
    frames.swap(0, 1);
    let received = receive_all(&mut download, &concat(&frames));
    assert_eq!(received.writes, 2);
    assert!(received.file.is_none());
    assert_eq!(received.signal.as_deref(), Some(b"ERROR:hash_mismatch\n".as_ref()));
    assert_eq!(received.error.unwrap().message(), "File integrity check failed");
}

#[test]
fn test_replayed_chunk_never_completes() {
    let mut data = vec![0x21u8; FILE_CHUNK_SIZE];
    data.extend_from_slice(&[1, 2, 3, 4, 5]);
    let hash = compute_file_hash(&data);
    let (mut upload, mut download) = paired(&data, &hash);
    let frames = send_all(&mut upload, &data);
    // The relay sends the first frame twice and drops the second: more bytes
    // than announced arrive, and the receiver reads on until the connection
    // ends.
    let mut wire = frames[0].clone();
    wire.extend_from_slice(&frames[0]);
    let received = receive_all(&mut download, &wire);
    assert_eq!(received.writes, 2);
    assert!(received.file.is_none());
    assert!(received.signal.is_none());
    assert_eq!(received.error.unwrap().kind(), ErrorKind::InvalidInput);
}

#[test]
fn test_unsafe_file_names_are_refused() {
    let (alice_key, alice_public) = identity(1);
    let (_, bob_public) = identity(2);
    for name in ["../x", "a/b", "a\\b", "..", ".", ""] {
        let sender = Sender::new(
            &alice_key,
            Some(bob_public.fingerprint()),
            "bob",
            name,
            0,
            &compute_file_hash(b""),
        )
        .unwrap();
        let receiver = Receiver::new(Some(alice_public.fingerprint()), "alice").unwrap();
        let session = RelayClient::session_from_listen(listen_response(
            &sender.request(),
            &receiver.public_key_hex(),
        ))
        .unwrap();
        let rejection = receiver.accept(&session).err().unwrap();
        assert_eq!(rejection.error.kind(), ErrorKind::InvalidInput);
        assert_eq!(rejection.error.message(), "Unsafe file name in session");
        assert!(rejection.signal.is_none());
    }
    assert!(rshare::transfer::receiver::is_safe_filename("movie.bin"));
    assert!(rshare::transfer::receiver::is_safe_filename("..movie"));
    assert!(!rshare::transfer::receiver::is_safe_filename(&"x".repeat(256)));
    assert!(rshare::transfer::receiver::is_safe_filename(&"x".repeat(255)));
}

#[test]
fn test_unknown_contacts() {
    let error = match Receiver::new(None, "alice") {
        Err(error) => error,
        Ok(_) => panic!("an unknown contact was accepted"),
    };
    assert_eq!(error.kind(), ErrorKind::InvalidInput);
    assert_eq!(error.message(), "Contact 'alice' not found in trusted contacts");

    let (alice_key, _) = identity(1);
    let error = match Sender::new(&alice_key, None, "bob", "f", 0, "00") {
        Err(error) => error,
        Ok(_) => panic!("an unknown contact was accepted"),
    };
    assert_eq!(error.kind(), ErrorKind::InvalidInput);
    assert_eq!(error.message(), "Contact 'bob' not found");
}

#[test]
fn test_sender_needs_the_receiver_key() {
    let (alice_key, _) = identity(1);
    let (_, bob_public) = identity(2);
    let sender =
        Sender::new(&alice_key, Some(bob_public.fingerprint()), "bob", "f", 0, "00").unwrap();
    let mut response = serve_response("");
    response.receiver_ephemeral_key = None;
    let error = sender.open(&RelayClient::session_from_serve(response)).err().unwrap();
    assert_eq!(error.kind(), ErrorKind::SessionError);
    assert_eq!(error.message(), "Receiver key not found");

    let sender =
        Sender::new(&alice_key, Some(bob_public.fingerprint()), "bob", "f", 0, "00").unwrap();
    let error = sender
        .open(&RelayClient::session_from_serve(serve_response("abcd")))
        .err()
        .unwrap();
    assert_eq!(error.kind(), ErrorKind::CryptoError);
    assert_eq!(error.message(), "Invalid public key length: expected 32 bytes, got 2");
}

#[test]
fn test_request_carries_the_signed_metadata() {
    let (alice_key, alice_public) = identity(1);
    let (_, bob_public) = identity(2);
    let sender = Sender::new(
        &alice_key,
        Some(bob_public.fingerprint()),
        "bob",
        "notes.txt",
        42,
        "abcdef",
    )
    .unwrap();
    let request = sender.request();
    assert_eq!(request.sender_fingerprint, alice_public.fingerprint());
    assert_eq!(request.receiver_fingerprint, bob_public.fingerprint());
    assert_eq!(request.filename, "notes.txt");
    assert_eq!(request.file_size, 42);
    assert_eq!(request.file_hash, "abcdef");
    assert_eq!(request.sender_ephemeral_key.len(), 64);
    // The signature is that of the identity key over `notes.txt|42|abcdef`.
    let signature = rshare::crypto::signing::parse_signature(&request.signature).unwrap();
    assert!(rshare::crypto::signing::verify_signature(
        &alice_public,
        "notes.txt|42|abcdef",
        &signature
    )
    .is_ok());
    assert!(rshare::crypto::signing::verify_signature(
        &alice_public,
        "notes.txt|43|abcdef",
        &signature
    )
    .is_err());
}

#[test]
fn test_events_out_of_order() {
    let data = vec![1u8; 10];
    let hash = compute_file_hash(&data);
    let (mut upload, mut download) = paired(&data, &hash);
    match download.step(DownloadEvent::Written) {
        DownloadAction::Abort { cleanup, signal, error } => {
            assert!(!cleanup);
            assert!(signal.is_none());
            assert_eq!(error.kind(), ErrorKind::SessionError);
            assert_eq!(error.message(), "Transfer out of order");
        }
        other => panic!("unexpected action {:?}", other),
    }
    assert_eq!(download.phase(), DownloadPhase::Failed);
    match upload.step(UploadEvent::Sent) {
        UploadAction::Abort(error) => {
            assert_eq!(error.kind(), ErrorKind::SessionError);
            assert_eq!(error.message(), "Transfer out of order");
        }
        other => panic!("unexpected action {:?}", other),
    }
    assert_eq!(upload.phase(), UploadPhase::Failed);
}

#[test]
fn test_io_failures_end_the_transfer() {
    let data = vec![1u8; 10];
    let hash = compute_file_hash(&data);
    let (mut upload, mut download) = paired(&data, &hash);
    let wire = concat(&send_all(&mut upload, &data));

    // The disk fails after the output file was created: the file goes.
    download.step(DownloadEvent::Start);
    download.step(DownloadEvent::Opened);
    download.step(DownloadEvent::Read(wire[..4].to_vec()));
    match download.step(DownloadEvent::Read(wire[4..].to_vec())) {
        DownloadAction::Write(plaintext) => assert_eq!(plaintext, data),
        other => panic!("unexpected action {:?}", other),
    }
    match download.step(DownloadEvent::Failed(IoFailure::PermissionDenied, "disk".to_string())) {
        DownloadAction::Abort { cleanup, signal, error } => {
            assert!(cleanup);
            assert!(signal.is_none());
            assert_eq!(error.kind(), ErrorKind::FileError);
            assert_eq!(error.message(), "disk");
        }
        other => panic!("unexpected action {:?}", other),
    }

    // No confirmation at all still delivers the file.
    match upload.step(UploadEvent::AckFailed) {
        UploadAction::Finish { confirmed } => assert!(!confirmed),
        other => panic!("unexpected action {:?}", other),
    }

    let (mut upload, _) = paired(&data, &hash);
    upload.step(UploadEvent::Start);
    match upload.step(UploadEvent::Failed(IoFailure::Other, "reset".to_string())) {
        UploadAction::Abort(error) => {
            assert_eq!(error.kind(), ErrorKind::NetworkError);
            assert_eq!(error.message(), "reset");
        }
        other => panic!("unexpected action {:?}", other),
    }
}

#[test]
fn test_partial_confirmation_is_a_warning() {
    let data = vec![1u8; 10];
    let hash = compute_file_hash(&data);
    for ack in [b"DONE".to_vec(), b"DONE\n!".to_vec(), Vec::new(), b"done\n".to_vec()] {
        let (mut upload, _) = paired(&data, &hash);
        send_all(&mut upload, &data);
        match upload.step(UploadEvent::Ack(ack)) {
            UploadAction::Finish { confirmed } => assert!(!confirmed),
            other => panic!("unexpected action {:?}", other),
        }
    }
}

#[test]
fn test_streams_in_memory() {
    let data: Vec<u8> = (0..2 * FILE_CHUNK_SIZE + 4321).map(|i| (i % 253) as u8).collect();
    let hash = compute_file_hash(&data);
    let (mut upload, download) = paired(&data, &hash);
    let wire = rshare::transfer::stream::send_stream(&mut upload, &data).unwrap();
    assert_eq!(wire.len(), data.len() + 3 * (4 + 28));
    assert_eq!(upload.phase(), UploadPhase::AwaitingAck);
    assert_eq!(upload.sent(), data.len() as u64);
    let file = rshare::transfer::stream::receive_stream(download, &wire).ok().unwrap();
    assert_eq!(file, data);
}

#[test]
fn test_stream_ignores_what_follows_the_file() {
    let data = vec![9u8; 100];
    let hash = compute_file_hash(&data);
    let (mut upload, download) = paired(&data, &hash);
    let mut wire = rshare::transfer::stream::send_stream(&mut upload, &data).unwrap();
    wire.extend_from_slice(b"trailing bytes");
    let file = rshare::transfer::stream::receive_stream(download, &wire).ok().unwrap();
    assert_eq!(file, data);
}

#[test]
fn test_stream_failures() {
    let data = vec![9u8; FILE_CHUNK_SIZE + 100];
    let hash = compute_file_hash(&data);

    // The stream ends between two frames.
    let (mut upload, download) = paired(&data, &hash);
    let wire = rshare::transfer::stream::send_stream(&mut upload, &data).unwrap();
    let first = 4 + 28 + FILE_CHUNK_SIZE;
    let rejection =
        rshare::transfer::stream::receive_stream(download, &wire[..first + 2]).err().unwrap();
    assert_eq!(rejection.error.kind(), ErrorKind::InvalidInput);
    assert_eq!(
        rejection.error.message(),
        "Transfer interrupted - connection closed before size prefix: failed to fill whole buffer"
    );
    assert!(rejection.signal.is_none());

    // The stream ends inside a frame.
    let (mut upload, download) = paired(&data, &hash);
    let wire = rshare::transfer::stream::send_stream(&mut upload, &data).unwrap();
    let rejection =
        rshare::transfer::stream::receive_stream(download, &wire[..first + 40]).err().unwrap();
    assert_eq!(
        rejection.error.message(),
        "Transfer interrupted - connection closed during chunk: failed to fill whole buffer"
    );

    // A byte of the second frame is flipped.
    let (mut upload, download) = paired(&data, &hash);
    let mut wire = rshare::transfer::stream::send_stream(&mut upload, &data).unwrap();
    wire[first + 20] ^= 0x80;
    let rejection = rshare::transfer::stream::receive_stream(download, &wire).err().unwrap();
    assert_eq!(rejection.error.kind(), ErrorKind::CryptoError);
    assert!(rejection.signal.is_none());

    // A length prefix announces a blob that is too short to be one.
    let (_, download) = paired(&data, &hash);
    let rejection =
        rshare::transfer::stream::receive_stream(download, &[0, 0, 0, 3, 1, 2, 3]).err().unwrap();
    assert_eq!(rejection.error.kind(), ErrorKind::CryptoError);
    assert_eq!(
        rejection.error.message(),
        "Encrypted data too short: 3 bytes (need at least 28)"
    );

    // The announced hash is not that of the file.
    let (mut upload, download) = paired(&data, &compute_file_hash(b"forged"));
    let wire = rshare::transfer::stream::send_stream(&mut upload, &data).unwrap();
    let rejection = rshare::transfer::stream::receive_stream(download, &wire).err().unwrap();
    assert_eq!(rejection.error.message(), "File integrity check failed");
    assert_eq!(rejection.signal.as_deref(), Some(b"ERROR:hash_mismatch\n".as_ref()));

    // A download that has begun already cannot be run again.
    let (mut upload, mut download) = paired(&data, &hash);
    let wire = rshare::transfer::stream::send_stream(&mut upload, &data).unwrap();
    download.step(DownloadEvent::Start);
    let rejection = rshare::transfer::stream::receive_stream(download, &wire).err().unwrap();
    assert_eq!(rejection.error.kind(), ErrorKind::SessionError);
    assert_eq!(rejection.error.message(), "Transfer out of order");
    let error = rshare::transfer::stream::send_stream(&mut upload, &data).unwrap_err();
    assert_eq!(error.kind(), ErrorKind::SessionError);
    assert_eq!(error.message(), "Transfer out of order");
    assert_eq!(upload.phase(), UploadPhase::Failed);
}

#[test]
fn test_keys_of_two_sessions_do_not_mix() {
    let data = vec![9u8; 100];
    let hash = compute_file_hash(&data);
    let (mut upload, _) = paired(&data, &hash);
    let (_, other_download) = paired(&data, &hash);
    let wire = rshare::transfer::stream::send_stream(&mut upload, &data).unwrap();
    let rejection = rshare::transfer::stream::receive_stream(other_download, &wire).err().unwrap();
    assert_eq!(rejection.error.kind(), ErrorKind::CryptoError);
}

#[test]
fn test_transfer_with_known_ephemeral_keys() {
    let (alice_key, alice_public) = identity(1);
    let (_, bob_public) = identity(2);
    let data = vec![0x37u8; 1000];
    let hash = compute_file_hash(&data);
    let sender_pair = rshare::crypto::key_exchange::EphemeralKeyPair::from_secret([0x51u8; 32]);
    let receiver_pair = rshare::crypto::key_exchange::EphemeralKeyPair::from_secret([0x52u8; 32]);
    let sender_hex = sender_pair.public_key_hex();
    let receiver_hex = receiver_pair.public_key_hex();
    let sender = Sender::with_key_pair(
        &alice_key,
        Some(bob_public.fingerprint()),
        "bob",
        "movie.bin",
        1000,
        &hash,
        sender_pair,
    )
    .ok()
    .unwrap();
    let receiver =
        Receiver::with_key_pair(Some(alice_public.fingerprint()), "alice", receiver_pair)
            .ok()
            .unwrap();
    assert_eq!(sender.request().sender_ephemeral_key, sender_hex);
    assert_eq!(receiver.public_key_hex(), receiver_hex);

    let session =
        RelayClient::session_from_listen(listen_response(&sender.request(), &receiver_hex))
            .unwrap();
    let download = receiver.accept(&session).ok().unwrap();
    let mut upload = sender
        .open(&RelayClient::session_from_serve(serve_response(&receiver_hex)))
        .ok()
        .unwrap();
    let wire = rshare::transfer::stream::send_stream(&mut upload, &data).unwrap();

    // The frame is a chunk under the key that both secrets and the session
    // id give.
    let receiver_public =
        x25519_dalek::x25519([0x52u8; 32], x25519_dalek::X25519_BASEPOINT_BYTES);
    let shared = x25519_dalek::x25519([0x51u8; 32], receiver_public);
    let key = rshare::crypto::key_exchange::derive_aes_key(&shared, SESSION_ID).unwrap();
    assert_eq!(rshare::crypto::encryption::decrypt_chunk(&key, &wire[4..]).unwrap(), data);

    let file = rshare::transfer::stream::receive_stream(download, &wire).ok().unwrap();
    assert_eq!(file, data);

    assert!(Receiver::with_key_pair(
        None,
        "alice",
        rshare::crypto::key_exchange::EphemeralKeyPair::from_secret([1u8; 32])
    )
    .is_err());
}
