use rshare::crypto::signing::{
    parse_signature, sign_data, verify_signature, Signature, SigningKey, VerifyingKey,
};
use rshare::utils::error::ErrorKind;

fn unhex<const N: usize>(text: &str) -> [u8; N] {
    let bytes = hex::decode(text).unwrap();
    let mut array = [0u8; N];
    array.copy_from_slice(&bytes);
    array
}

#[test]
fn test_known_signature_of_the_empty_message() {
    let secret: [u8; 32] =
        unhex("9d61b19deffd5a60ba844af492ec2cc44449c5697b326919703bac031cae7f60");
    let public = "d75a980182b10ab7d54bfed3c964073a0ee172f3daa62325af021a68f707511a";
    let signature = "e5564300c360ac729086e2cc806e828a84877f1eb8e5d974d873e06522490155\
                     5fb8821590a33bacc61e39701cf9b46bd25bf5f0595bbe24655141438e7a100b";
    let signing_key = SigningKey::from_bytes(&secret);
    assert_eq!(signing_key.to_bytes(), secret);
    let verifying_key = signing_key.verifying_key();
    assert_eq!(verifying_key.fingerprint(), public);
    let signed = sign_data(&signing_key, "").unwrap();
    assert_eq!(signed.to_hex(), signature);
    assert!(verify_signature(&verifying_key, "", &signed).is_ok());
}

#[test]
fn test_sign_and_verify() {
    let signing_key = SigningKey::from_bytes(&[7u8; 32]);
    let verifying_key = signing_key.verifying_key();
    let signature = sign_data(&signing_key, "report.pdf|1024|00ff").unwrap();
    assert!(verify_signature(&verifying_key, "report.pdf|1024|00ff", &signature).is_ok());

    let error = verify_signature(&verifying_key, "report.pdf|1025|00ff", &signature).unwrap_err();
    assert_eq!(error.kind(), ErrorKind::InvalidInput);
    assert_eq!(error.message(), "Signature verification failed");

    let other = SigningKey::from_bytes(&[8u8; 32]).verifying_key();
    assert!(verify_signature(&other, "report.pdf|1024|00ff", &signature).is_err());

    let mut bytes = signature.to_bytes();
    bytes[3] ^= 0x40;
    assert!(verify_signature(
        &verifying_key,
        "report.pdf|1024|00ff",
        &Signature::from_bytes(&bytes)
    )
    .is_err());
}

#[test]
fn test_signing_is_deterministic() {
    let signing_key = SigningKey::from_bytes(&[7u8; 32]);
    let one = sign_data(&signing_key, "same").unwrap();
    let two = sign_data(&signing_key, "same").unwrap();
    assert_eq!(one.to_bytes(), two.to_bytes());
    let three = sign_data(&signing_key, "other").unwrap();
    assert_ne!(one.to_bytes(), three.to_bytes());
}

#[test]
fn test_verifying_key_must_be_a_point() {
    let mut accepted = 0;
    let mut refused = 0;
    for first in 0..=255u8 {
        let mut bytes = [0x5Au8; 32];
        bytes[0] = first;
        let ours = VerifyingKey::from_bytes(&bytes);
        let theirs = ed25519_dalek::VerifyingKey::from_bytes(&bytes);
        assert_eq!(ours.is_ok(), theirs.is_ok());
        match ours {
            Ok(key) => {
                accepted += 1;
                assert_eq!(key.to_bytes(), bytes);
                assert_eq!(key.as_bytes(), &bytes);
            }
            Err(error) => {
                refused += 1;
                assert_eq!(error.kind(), ErrorKind::InvalidInput);
                assert_eq!(error.message(), "Invalid public key");
            }
        }
    }
    assert!(accepted > 0);
    assert!(refused > 0);
}

#[test]
fn test_verification_is_strict() {
    // The identity point is a key of small order: ordinary verification may
    // accept signatures under it, strict verification never does.
    let mut weak = [0u8; 32];
    weak[0] = 1;
    let key = VerifyingKey::from_bytes(&weak).unwrap();
    let signature = Signature::from_bytes(&{
        let mut bytes = [0u8; 64];
        bytes[0] = 1;
        bytes
    });
    let theirs = ed25519_dalek::VerifyingKey::from_bytes(&weak).unwrap();
    assert!(theirs.is_weak());
    assert!(verify_signature(&key, "anything", &signature).is_err());
}

#[test]
fn test_parse_signature() {
    let signing_key = SigningKey::from_bytes(&[7u8; 32]);
    let signature = sign_data(&signing_key, "text").unwrap();
    let text = signature.to_hex();
    assert_eq!(text.len(), 128);
    assert_eq!(text, hex::encode(signature.to_bytes()));
    assert_eq!(parse_signature(&text).unwrap().to_bytes(), signature.to_bytes());
    assert_eq!(
        parse_signature(&text.to_uppercase()).unwrap().to_bytes(),
        signature.to_bytes()
    );

    let error = parse_signature("xyz").unwrap_err();
    assert_eq!(error.kind(), ErrorKind::InvalidInput);
    assert_eq!(error.message(), "Invalid signature hex");
    let error = parse_signature(&text[..126]).unwrap_err();
    assert_eq!(error.kind(), ErrorKind::InvalidInput);
    assert_eq!(error.message(), "Invalid signature length");
}
