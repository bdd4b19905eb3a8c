use rshare::crypto::key_exchange::{
    EphemeralKeyPair, compute_shared_secret, derive_aes_key, parse_public_key, perform_key_exchange,
};

#[test]
fn test_ephemeral_keypair_generation() {
    let keypair = EphemeralKeyPair::generate();
    let hex = keypair.public_key_hex();

    // Should be 32 bytes = 64 hex chars
    assert_eq!(hex.len(), 64);

    // Should be valid hex
    assert!(hex::decode(&hex).is_ok());
}

#[test]
fn test_parse_public_key() {
    let keypair = EphemeralKeyPair::generate();
    let hex = keypair.public_key_hex();

    let parsed = parse_public_key(&hex).unwrap();
    assert_eq!(parsed.as_bytes(), keypair.public.as_bytes());
}

#[test]
fn test_key_exchange_symmetric() {
    // Alice generates keypair
    let alice_keypair = EphemeralKeyPair::generate();

    // Bob generates keypair
    let bob_keypair = EphemeralKeyPair::generate();

    // Alice computes shared secret with Bob's public key
    let alice_shared = compute_shared_secret(alice_keypair.secret, bob_keypair.public);

    // Bob computes shared secret with Alice's public key
    let bob_shared = compute_shared_secret(bob_keypair.secret, alice_keypair.public);

    // Shared secrets should match (ECDH property)
    assert_eq!(alice_shared, bob_shared);
}

#[test]
fn test_derive_aes_key() {
    let shared_secret = [0x42u8; 32];
    let session_id = "test-session-123";

    let key = derive_aes_key(&shared_secret, session_id).unwrap();

    // Should produce 32-byte key
    assert_eq!(key.len(), 32);

    // Different session IDs should produce different keys
    let key2 = derive_aes_key(&shared_secret, "different-session").unwrap();
    assert_ne!(key, key2);
}

#[test]
fn test_full_key_exchange() {
    let alice = EphemeralKeyPair::generate();
    let bob = EphemeralKeyPair::generate();
    let session_id = "test-session-456";

    let alice_public_hex = alice.public_key_hex();
    let bob_public_hex = bob.public_key_hex();

    // Alice derives AES key
    let alice_aes = perform_key_exchange(alice.secret, &bob_public_hex, session_id).unwrap();

    // Bob derives AES key
    let bob_aes = perform_key_exchange(bob.secret, &alice_public_hex, session_id).unwrap();

    // Both should have the same AES key
    assert_eq!(alice_aes, bob_aes);
}

#[test]
fn test_derive_aes_key_matches_hkdf() {
    let shared_secret = [0x17u8; 32];
    let key = derive_aes_key(&shared_secret, "session-abc").unwrap();
    let mut expected = [0u8; 32];
    hkdf::Hkdf::<sha2::Sha256>::new(Some(b"session-abc"), &shared_secret)
        .expand(b"File_Encryption_Test", &mut expected)
        .unwrap();
    assert_eq!(key, expected);
    assert_ne!(key, shared_secret);
}

#[test]
fn test_derive_aes_key_is_deterministic() {
    let shared_secret = [0x42u8; 32];
    let first = derive_aes_key(&shared_secret, "same-session").unwrap();
    let second = derive_aes_key(&shared_secret, "same-session").unwrap();
    assert_eq!(first, second);
}

#[test]
fn test_public_key_is_x25519_of_basepoint() {
    // The shared secret with the peer whose public key is the base point is
    // our own public key: both are X25519 of our secret and the base point.
    let keypair = EphemeralKeyPair::generate();
    let public = *keypair.public.as_bytes();
    let basepoint = rshare::crypto::key_exchange::PublicKey::from_bytes(
        x25519_dalek::X25519_BASEPOINT_BYTES,
    );
    let shared = compute_shared_secret(keypair.secret, basepoint);
    assert_eq!(shared, public);
    assert_ne!(shared, x25519_dalek::X25519_BASEPOINT_BYTES);
}

#[test]
fn test_shared_secret_matches_x25519() {
    // A peer that uses the crate's own key types reaches the same secret.
    let ours = EphemeralKeyPair::generate();
    let their_secret = x25519_dalek::EphemeralSecret::random_from_rng(aes_gcm::aead::OsRng);
    let their_public = x25519_dalek::PublicKey::from(&their_secret);
    let our_public = x25519_dalek::PublicKey::from(*ours.public.as_bytes());
    let theirs = their_secret.diffie_hellman(&our_public);
    let shared = compute_shared_secret(
        ours.secret,
        rshare::crypto::key_exchange::PublicKey::from_bytes(their_public.to_bytes()),
    );
    assert_eq!(&shared, theirs.as_bytes());
}

#[test]
fn test_parse_public_key_errors() {
    let error = parse_public_key("not hex at all").unwrap_err();
    assert_eq!(error.kind(), rshare::utils::error::ErrorKind::CryptoError);
    assert_eq!(error.message(), "Invalid hex public key");

    let error = parse_public_key("abc").unwrap_err();
    assert_eq!(error.message(), "Invalid hex public key");

    let error = parse_public_key("0a0b0c").unwrap_err();
    assert_eq!(error.kind(), rshare::utils::error::ErrorKind::CryptoError);
    assert_eq!(error.message(), "Invalid public key length: expected 32 bytes, got 3");

    let error = parse_public_key("").unwrap_err();
    assert_eq!(error.message(), "Invalid public key length: expected 32 bytes, got 0");
}

#[test]
fn test_parse_public_key_accepts_either_case() {
    let lower = "00112233445566778899aabbccddeeff00112233445566778899aabbccddeeff";
    let upper = "00112233445566778899AABBCCDDEEFF00112233445566778899AABBCCDDEEFF";
    let a = parse_public_key(lower).unwrap();
    let b = parse_public_key(upper).unwrap();
    assert_eq!(a.as_bytes(), b.as_bytes());
    assert_eq!(a.as_bytes()[0], 0x00);
    assert_eq!(a.as_bytes()[1], 0x11);
    assert_eq!(a.as_bytes()[10], 0xaa);
    assert_eq!(a.as_bytes()[31], 0xff);
}

#[test]
fn test_key_exchange_differs_between_sessions() {
    let alice = EphemeralKeyPair::generate();
    let bob = EphemeralKeyPair::generate();
    let carol = EphemeralKeyPair::generate();
    let bob_hex = bob.public_key_hex();
    let one = perform_key_exchange(alice.secret, &bob_hex, "session-one").unwrap();
    let two = perform_key_exchange(carol.secret, &bob_hex, "session-one").unwrap();
    assert_ne!(one, two);
}

#[test]
fn test_key_exchange_rejects_bad_peer_key() {
    let alice = EphemeralKeyPair::generate();
    let error = perform_key_exchange(alice.secret, "zz", "session").unwrap_err();
    assert_eq!(error.kind(), rshare::utils::error::ErrorKind::CryptoError);
    assert_eq!(error.message(), "Invalid hex public key");
}

fn unhex32(text: &str) -> [u8; 32] {
    let bytes = hex::decode(text).unwrap();
    let mut array = [0u8; 32];
    array.copy_from_slice(&bytes);
    array
}

#[test]
fn test_key_pairs_of_known_secrets() {
    let alice = EphemeralKeyPair::from_secret(unhex32(
        "77076d0a7318a57d3c16c17251b26645df4c2f87ebc0992ab177fba51db92c2a",
    ));
    let bob = EphemeralKeyPair::from_secret(unhex32(
        "5dab087e624a8a4b79e17f8b83800ee66f3bb1292618b6fd1c2f8b27ff88e0eb",
    ));
    assert_eq!(
        alice.public_key_hex(),
        "8520f0098930a754748b7ddcb43ef75a0dbf3a0d26381af4eba4a98eaa9b4e6a"
    );
    assert_eq!(
        bob.public_key_hex(),
        "de9edb7d7b7dc1b4d35b61c2ece435373f8343c85b78674dadfc7e146f882b4f"
    );
    let shared = unhex32("4a5d9d5ba4ce2de1728e3bf480350f25e07e21c947d19e3376f09b3c1e161742");
    assert_eq!(compute_shared_secret(alice.secret, bob.public), shared);
    assert_eq!(compute_shared_secret(bob.secret, alice.public), shared);
}

#[test]
fn test_session_key_of_known_secrets() {
    let alice = EphemeralKeyPair::from_secret([0x11u8; 32]);
    let bob = EphemeralKeyPair::from_secret([0x22u8; 32]);
    let again = EphemeralKeyPair::from_secret([0x11u8; 32]);
    assert_eq!(alice.public.as_bytes(), again.public.as_bytes());
    assert_ne!(alice.public.as_bytes(), bob.public.as_bytes());
    let alice_hex = alice.public_key_hex();
    let bob_hex = bob.public_key_hex();
    let key = perform_key_exchange(alice.secret, &bob_hex, "session-x").unwrap();
    assert_eq!(key, perform_key_exchange(bob.secret, &alice_hex, "session-x").unwrap());
    // The key is HKDF of the shared secret, salted with the session id.
    let shared = x25519_dalek::x25519([0x11u8; 32], *bob.public.as_bytes());
    assert_eq!(key, derive_aes_key(&shared, "session-x").unwrap());
    assert_ne!(key, perform_key_exchange(again.secret, &bob_hex, "session-y").unwrap());
}
