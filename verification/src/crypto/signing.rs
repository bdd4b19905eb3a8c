use crate::utils::encoding::{
    hex_decode, hex_encode, lemma_hex_round_trip, spec_hex_decode, spec_hex_encode, to_array,
};
use crate::utils::error::{Error, ErrorKind, Result};
use ed25519_dalek::Signer;
use ed25519_dalek::Verifier;
use vstd::prelude::*;
use vstd::string::{StringExecFns, StringSliceAdditionalSpecFns};

verus! {

/// The Ed25519 public key that belongs to a 32-byte secret key.
pub uninterp spec fn spec_ed25519_public_key(secret: Seq<u8>) -> Seq<u8>;

/// The Ed25519 signature of `message` under a 32-byte secret key.
pub uninterp spec fn spec_ed25519_sign(secret: Seq<u8>, message: Seq<u8>) -> Seq<u8>;

/// Whether 32 bytes are the compressed form of a point of the curve, so that
/// they can serve as an Ed25519 public key.
pub uninterp spec fn spec_ed25519_is_point(public: Seq<u8>) -> bool;

/// Whether `signature` is accepted for `message` under `public` by strict
/// Ed25519 verification, which also refuses keys and signatures of small
/// order. False where `public` is no point of the curve.
pub uninterp spec fn spec_ed25519_verify_strict(public: Seq<u8>, message: Seq<u8>, signature: Seq<u8>) -> bool;

/// Whether `signature` is accepted for `message` under `public` by ordinary
/// Ed25519 verification. False where `public` is no point of the curve.
pub uninterp spec fn spec_ed25519_verify(public: Seq<u8>, message: Seq<u8>, signature: Seq<u8>) -> bool;

/// The secret half of an identity: a 32-byte Ed25519 secret key.
pub struct SigningKey {
    secret: [u8; 32],
}

/// The public half of an identity: a 32-byte Ed25519 public key. Its
/// hexadecimal text is the fingerprint of the party.
#[derive(Clone, Copy, Debug)]
pub struct VerifyingKey {
    bytes: [u8; 32],
}

/// An Ed25519 signature: 64 bytes.
#[derive(Clone, Copy, Debug)]
pub struct Signature {
    bytes: [u8; 64],
}

impl View for SigningKey {
    type V = Seq<u8>;

    closed spec fn view(&self) -> Seq<u8> {
        self.secret@
    }
}

impl View for VerifyingKey {
    type V = Seq<u8>;

    closed spec fn view(&self) -> Seq<u8> {
        self.bytes@
    }
}

impl View for Signature {
    type V = Seq<u8>;

    closed spec fn view(&self) -> Seq<u8> {
        self.bytes@
    }
}

impl SigningKey {
    /// A secret key is 32 bytes long.
    pub proof fn lemma_len(self)
        ensures
            self@.len() == 32,
    {
    }

    /// The signing key with the given secret bytes.
    pub fn from_bytes(secret: &[u8; 32]) -> (key: SigningKey)
        ensures
            key@ == secret@,
    {
        SigningKey { secret: *secret }
    }

    /// The secret bytes of the key.
    pub fn to_bytes(&self) -> (secret: [u8; 32])
        ensures
            secret@ == self@,
    {
        self.secret
    }

    /// The public key that belongs to this key.
    pub fn verifying_key(&self) -> (key: VerifyingKey)
        ensures
            key@ == spec_ed25519_public_key(self@),
    {
        VerifyingKey { bytes: ed25519_public_key(&self.secret) }
    }
}

impl VerifyingKey {
    /// A public key is 32 bytes long.
    pub proof fn lemma_len(self)
        ensures
            self@.len() == 32,
    {
    }

    /// The public key with the given bytes, where they are a point of the
    /// curve.
    pub fn from_bytes(bytes: &[u8; 32]) -> (result: Result<VerifyingKey>)
        ensures
            match result {
                Ok(key) => spec_ed25519_is_point(bytes@) && key@ == bytes@,
                Err(e) => !spec_ed25519_is_point(bytes@) && e.is(
                    ErrorKind::InvalidInput,
                    "Invalid public key"@,
                ),
            },
    {
        if ed25519_is_point(bytes) {
            Ok(VerifyingKey { bytes: *bytes })
        } else {
            Err(Error::InvalidInput(String::from_str("Invalid public key")))
        }
    }

    /// The bytes of the key.
    pub fn to_bytes(&self) -> (bytes: [u8; 32])
        ensures
            bytes@ == self@,
    {
        self.bytes
    }

    /// The bytes of the key.
    pub fn as_bytes(&self) -> (bytes: &[u8; 32])
        ensures
            bytes@ == self@,
    {
        &self.bytes
    }

    /// The fingerprint of the party: the key as lower-case hexadecimal text.
    pub fn fingerprint(&self) -> (text: String)
        ensures
            text@ == spec_hex_encode(self@),
    {
        hex_encode(self.bytes.as_slice())
    }
}

impl Signature {
    /// A signature is 64 bytes long.
    pub proof fn lemma_len(self)
        ensures
            self@.len() == 64,
    {
    }

    /// The signature with the given bytes.
    pub fn from_bytes(bytes: &[u8; 64]) -> (signature: Signature)
        ensures
            signature@ == bytes@,
    {
        Signature { bytes: *bytes }
    }

    /// The bytes of the signature.
    pub fn to_bytes(&self) -> (bytes: [u8; 64])
        ensures
            bytes@ == self@,
    {
        self.bytes
    }

    /// The signature as lower-case hexadecimal text.
    pub fn to_hex(&self) -> (text: String)
        ensures
            text@ == spec_hex_encode(self@),
    {
        hex_encode(self.bytes.as_slice())
    }
}

/// The public key of a secret key.
///
/// Trusted: calls `SigningKey::from_bytes`, `verifying_key` and `to_bytes` of
/// ed25519-dalek.
#[verifier::external_body]
fn ed25519_public_key(secret: &[u8; 32]) -> (public: [u8; 32])
    ensures
        public@ == spec_ed25519_public_key(secret@),
{
    ed25519_dalek::SigningKey::from_bytes(secret).verifying_key().to_bytes()
}

/// The signature of `message` under a secret key.
///
/// Trusted: calls `SigningKey::from_bytes` and `Signer::sign` of
/// ed25519-dalek. Signing is deterministic.
#[verifier::external_body]
fn ed25519_sign(secret: &[u8; 32], message: &[u8]) -> (signature: [u8; 64])
    ensures
        signature@ == spec_ed25519_sign(secret@, message@),
{
    ed25519_dalek::SigningKey::from_bytes(secret).sign(message).to_bytes()
}

/// Whether 32 bytes are a public key.
///
/// Trusted: calls `VerifyingKey::from_bytes` of ed25519-dalek, which
/// decompresses the point, and says whether it succeeded.
#[verifier::external_body]
fn ed25519_is_point(public: &[u8; 32]) -> (valid: bool)
    ensures
        valid == spec_ed25519_is_point(public@),
{
    ed25519_dalek::VerifyingKey::from_bytes(public).is_ok()
}

/// Strict verification of a signature.
///
/// Trusted: calls `VerifyingKey::from_bytes` and `verify_strict` of
/// ed25519-dalek, and says whether both succeeded.
#[verifier::external_body]
fn ed25519_verify_strict(public: &[u8; 32], message: &[u8], signature: &[u8; 64]) -> (valid: bool)
    ensures
        valid == spec_ed25519_verify_strict(public@, message@, signature@),
{
    match ed25519_dalek::VerifyingKey::from_bytes(public) {
        Ok(key) => {
            let signature = ed25519_dalek::Signature::from_bytes(signature);
            key.verify_strict(message, &signature).is_ok()
        },
        Err(_) => false,
    }
}

/// Ordinary verification of a signature.
///
/// Trusted: calls `VerifyingKey::from_bytes` and `Verifier::verify` of
/// ed25519-dalek, and says whether both succeeded.
#[verifier::external_body]
fn ed25519_verify(public: &[u8; 32], message: &[u8], signature: &[u8; 64]) -> (valid: bool)
    ensures
        valid == spec_ed25519_verify(public@, message@, signature@),
{
    match ed25519_dalek::VerifyingKey::from_bytes(public) {
        Ok(key) => {
            let signature = ed25519_dalek::Signature::from_bytes(signature);
            key.verify(message, &signature).is_ok()
        },
        Err(_) => false,
    }
}

/// What parsing `text` as a signature gives: its 64 bytes, or the text of
/// the error.
pub open spec fn spec_parse_signature(text: Seq<char>) -> std::result::Result<
    Seq<u8>,
    Seq<char>,
> {
    match spec_hex_decode(text) {
        None => Err("Invalid signature hex"@),
        Some(bytes) => if bytes.len() == 64 {
            Ok(bytes)
        } else {
            Err("Invalid signature length"@)
        },
    }
}

/// The hexadecimal text of a signature parses to the signature again.
pub proof fn lemma_signature_text_round_trip(signature: Signature)
    ensures
        spec_parse_signature(spec_hex_encode(signature@)) == Ok::<Seq<u8>, Seq<char>>(signature@),
{
    lemma_hex_round_trip(signature@);
    signature.lemma_len();
}

/// Parses a signature from hexadecimal text of either case.
pub fn parse_signature(hex_str: &str) -> (result: Result<Signature>)
    ensures
        match result {
            Ok(signature) => spec_parse_signature(hex_str@) == Ok::<Seq<u8>, Seq<char>>(
                signature@,
            ),
            Err(e) => e.spec_kind() == ErrorKind::InvalidInput && spec_parse_signature(hex_str@)
                == Err::<Seq<u8>, Seq<char>>(e.spec_message()),
        },
{
    match hex_decode(hex_str) {
        None => Err(Error::InvalidInput(String::from_str("Invalid signature hex"))),
        Some(bytes) => {
            if bytes.len() != 64 {
                Err(Error::InvalidInput(String::from_str("Invalid signature length")))
            } else {
                Ok(Signature { bytes: to_array::<64>(bytes.as_slice()) })
            }
        },
    }
}

/// Signs the UTF-8 bytes of `data` with the identity key.
pub fn sign_data(signing_key: &SigningKey, data: &str) -> (result: Result<Signature>)
    ensures
        result matches Ok(signature) && signature@ == spec_ed25519_sign(
            signing_key@,
            data.spec_bytes(),
        ),
{
    Ok(Signature { bytes: ed25519_sign(&signing_key.secret, data.as_bytes()) })
}

/// Verifies strictly that `signature` signs the UTF-8 bytes of `data` under
/// `verifying_key`.
pub fn verify_signature(verifying_key: &VerifyingKey, data: &str, signature: &Signature) -> (result:
    Result<()>)
    ensures
        result is Ok <==> spec_ed25519_verify_strict(
            verifying_key@,
            data.spec_bytes(),
            signature@,
        ),
        result matches Err(e) ==> e.is(ErrorKind::InvalidInput, "Signature verification failed"@),
{
    if ed25519_verify_strict(&verifying_key.bytes, data.as_bytes(), &signature.bytes) {
        Ok(())
    } else {
        Err(Error::InvalidInput(String::from_str("Signature verification failed")))
    }
}

/// Whether the identity key signs a message so that ordinary verification
/// under `verifying_key` accepts it.
pub(crate) fn signs_for(signing_key: &SigningKey, verifying_key: &VerifyingKey, message: &[u8]) -> (
    valid: bool)
    ensures
        valid == spec_ed25519_verify(
            verifying_key@,
            message@,
            spec_ed25519_sign(signing_key@, message@),
        ),
{
    let signature: [u8; 64] = ed25519_sign(&signing_key.secret, message);
    ed25519_verify(&verifying_key.bytes, message, &signature)
}

} // verus!
