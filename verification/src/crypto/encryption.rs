use crate::config::constants::{AEAD_NONCE_LEN, AEAD_OVERHEAD, AEAD_TAG_LEN};
use crate::crypto::random::random_bytes;
use crate::utils::encoding::{decimal_string, spec_decimal};
use crate::utils::error::{Error, ErrorKind, Result};
use aes_gcm::aead::Aead;
use aes_gcm::{Aes256Gcm, KeyInit, Nonce};
use vstd::prelude::*;
use vstd::slice::slice_subrange;
use vstd::string::StringExecFns;

verus! {

/// Longest plaintext that AES-GCM seals under one nonce: 2^36 bytes.
pub open spec fn spec_max_plaintext_len() -> int {
    0x10_0000_0000
}

/// What AES-256-GCM gives for `plaintext` under `key` and `nonce`, without
/// associated data: the ciphertext followed by the 16-byte tag. `None` where
/// the cipher refuses the input.
pub uninterp spec fn spec_aes256_gcm_seal(key: Seq<u8>, nonce: Seq<u8>, plaintext: Seq<u8>) -> Option<Seq<u8>>;

/// What AES-256-GCM recovers from `sealed` (ciphertext and tag) under `key`
/// and `nonce`, without associated data. `None` where the tag does not
/// authenticate the ciphertext.
pub uninterp spec fn spec_aes256_gcm_open(key: Seq<u8>, nonce: Seq<u8>, sealed: Seq<u8>) -> Option<Seq<u8>>;

/// Whether `chunk` is an encryption of `plaintext` under `key`: a 12-byte
/// nonce, then what the cipher gives for the plaintext under that nonce, which
/// the cipher opens to the plaintext again.
pub open spec fn spec_is_encryption(key: Seq<u8>, plaintext: Seq<u8>, chunk: Seq<u8>) -> bool {
    &&& chunk.len() == AEAD_NONCE_LEN + plaintext.len() + AEAD_TAG_LEN
    &&& spec_aes256_gcm_seal(key, spec_nonce_of(chunk), plaintext) == Some(spec_sealed_of(chunk))
    &&& spec_aes256_gcm_open(key, spec_nonce_of(chunk), spec_sealed_of(chunk)) == Some(plaintext)
}

/// The nonce of a chunk: its first twelve bytes.
pub open spec fn spec_nonce_of(chunk: Seq<u8>) -> Seq<u8> {
    chunk.subrange(0, AEAD_NONCE_LEN as int)
}

/// The ciphertext and tag of a chunk: what follows its nonce.
pub open spec fn spec_sealed_of(chunk: Seq<u8>) -> Seq<u8> {
    chunk.subrange(AEAD_NONCE_LEN as int, chunk.len() as int)
}

/// The chunk that encrypting `plaintext` under `key` gives where `nonce` is
/// drawn: the nonce, then what the cipher gives for the plaintext under it.
/// `None` where the cipher refuses the plaintext.
pub open spec fn spec_chunk_under(key: Seq<u8>, nonce: Seq<u8>, plaintext: Seq<u8>) -> Option<
    Seq<u8>,
> {
    match spec_aes256_gcm_seal(key, nonce, plaintext) {
        Some(sealed) => Some(nonce + sealed),
        None => None,
    }
}

/// What decrypting `chunk` under `key` gives: nothing where the chunk is
/// shorter than nonce and tag together, else what the cipher recovers from
/// the bytes after the first twelve, with the first twelve as nonce.
pub open spec fn spec_decrypt_chunk(key: Seq<u8>, chunk: Seq<u8>) -> Option<Seq<u8>> {
    if chunk.len() < AEAD_OVERHEAD {
        None
    } else {
        spec_aes256_gcm_open(key, spec_nonce_of(chunk), spec_sealed_of(chunk))
    }
}

/// The text of the error for a chunk of `len` bytes that is too short.
pub open spec fn spec_too_short_message(len: nat) -> Seq<char> {
    "Encrypted data too short: "@ + spec_decimal(len) + " bytes (need at least 28)"@
}

/// The text of the error for a chunk that the cipher rejects.
pub open spec fn spec_decryption_failed_message() -> Seq<char> {
    "Decryption failed (authentication failure or corrupted data)"@
}

/// The text of the error for a plaintext that the cipher refuses to seal.
pub open spec fn spec_encryption_failed_message() -> Seq<char> {
    "AES-GCM encryption failed: aead::Error"@
}

/// Decrypting an encryption of `plaintext` under the same key gives
/// `plaintext`, and the encryption is 28 bytes longer than the plaintext.
pub proof fn lemma_decrypt_inverts_encrypt(key: Seq<u8>, plaintext: Seq<u8>, chunk: Seq<u8>)
    requires
        spec_is_encryption(key, plaintext, chunk),
    ensures
        spec_decrypt_chunk(key, chunk) == Some(plaintext),
        chunk.len() == AEAD_NONCE_LEN + plaintext.len() + AEAD_TAG_LEN,
{
}

/// Two nonces give two chunks: where one plaintext is encrypted twice under
/// one key and the two nonces drawn differ, the two chunks differ, in their
/// first twelve bytes already.
pub proof fn lemma_fresh_nonce_gives_fresh_chunk(
    key: Seq<u8>,
    plaintext: Seq<u8>,
    nonce1: Seq<u8>,
    nonce2: Seq<u8>,
)
    requires
        nonce1.len() == AEAD_NONCE_LEN,
        nonce2.len() == AEAD_NONCE_LEN,
        nonce1 != nonce2,
        spec_chunk_under(key, nonce1, plaintext) is Some,
        spec_chunk_under(key, nonce2, plaintext) is Some,
    ensures
        spec_chunk_under(key, nonce1, plaintext) != spec_chunk_under(key, nonce2, plaintext),
        spec_nonce_of(spec_chunk_under(key, nonce1, plaintext)->0) == nonce1,
        spec_nonce_of(spec_chunk_under(key, nonce2, plaintext)->0) == nonce2,
{
    let chunk1 = spec_chunk_under(key, nonce1, plaintext)->0;
    let chunk2 = spec_chunk_under(key, nonce2, plaintext)->0;
    assert(spec_nonce_of(chunk1) =~= nonce1);
    assert(spec_nonce_of(chunk2) =~= nonce2);
}

/// A chunk is rejected under every other key than the one that sealed it,
/// unless the cipher authenticates it under that key too. The cipher makes
/// this unlikely, not impossible.
pub proof fn lemma_wrong_key_rejected_unless_authentic(
    key: Seq<u8>,
    wrong_key: Seq<u8>,
    plaintext: Seq<u8>,
    chunk: Seq<u8>,
)
    requires
        spec_is_encryption(key, plaintext, chunk),
        wrong_key != key,
        spec_aes256_gcm_open(wrong_key, spec_nonce_of(chunk), spec_sealed_of(chunk)) is None,
    ensures
        spec_decrypt_chunk(wrong_key, chunk) is None,
{
}

/// A chunk in which a bit was flipped is rejected, unless the cipher
/// authenticates the changed bytes too. The cipher makes this unlikely, not
/// impossible.
pub proof fn lemma_tampered_chunk_rejected_unless_authentic(
    key: Seq<u8>,
    plaintext: Seq<u8>,
    chunk: Seq<u8>,
    tampered: Seq<u8>,
)
    requires
        spec_is_encryption(key, plaintext, chunk),
        tampered.len() == chunk.len(),
        tampered != chunk,
        spec_aes256_gcm_open(key, spec_nonce_of(tampered), spec_sealed_of(tampered)) is None,
    ensures
        spec_decrypt_chunk(key, tampered) is None,
{
}

/// No key decrypts a chunk of fewer than 28 bytes.
pub proof fn lemma_short_chunk_rejected(key: Seq<u8>, chunk: Seq<u8>)
    requires
        chunk.len() < AEAD_OVERHEAD,
    ensures
        spec_decrypt_chunk(key, chunk) is None,
{
}

/// AES-256-GCM encryption of `plaintext` under `key` and `nonce`.
///
/// Trusted: calls `Aes256Gcm::encrypt` of aes-gcm with an empty associated
/// data. The cipher refuses a plaintext of more than 2^36 bytes and nothing
/// else; its output is the ciphertext, as long as the plaintext, followed by
/// the 16-byte tag; and `Aes256Gcm::decrypt` under the same key and nonce
/// recomputes that tag and undoes the keystream, so it returns the plaintext.
#[verifier::external_body]
fn aes256_gcm_seal(key: &[u8; 32], nonce: &[u8; 12], plaintext: &[u8]) -> (sealed: Option<Vec<u8>>)
    ensures
        sealed is Some <==> plaintext@.len() <= spec_max_plaintext_len(),
        match sealed {
            Some(s) => {
                &&& spec_aes256_gcm_seal(key@, nonce@, plaintext@) == Some(s@)
                &&& s@.len() == plaintext@.len() + AEAD_TAG_LEN
                &&& spec_aes256_gcm_open(key@, nonce@, s@) == Some(plaintext@)
            },
            None => spec_aes256_gcm_seal(key@, nonce@, plaintext@) is None,
        },
{
    Aes256Gcm::new(key.into()).encrypt(Nonce::from_slice(nonce), plaintext).ok()
}

/// AES-256-GCM decryption of `sealed` under `key` and `nonce`.
///
/// Trusted: calls `Aes256Gcm::decrypt` of aes-gcm with an empty associated
/// data. A plaintext that comes back is 16 bytes shorter than the input.
#[verifier::external_body]
fn aes256_gcm_open(key: &[u8; 32], nonce: &[u8], sealed: &[u8]) -> (plaintext: Option<Vec<u8>>)
    requires
        nonce@.len() == AEAD_NONCE_LEN,
    ensures
        match plaintext {
            Some(p) => {
                &&& spec_aes256_gcm_open(key@, nonce@, sealed@) == Some(p@)
                &&& p@.len() + AEAD_TAG_LEN == sealed@.len()
            },
            None => spec_aes256_gcm_open(key@, nonce@, sealed@) is None,
        },
{
    Aes256Gcm::new(key.into()).decrypt(Nonce::from_slice(nonce), sealed).ok()
}

/// Encrypts one chunk with AES-256-GCM under the given nonce.
///
/// Returns the nonce, then what the cipher gives for the plaintext under it:
/// `[12-byte nonce][ciphertext][16-byte tag]`. Fails only where the cipher
/// refuses the plaintext, which it does for more than 2^36 bytes. A nonce
/// must never serve twice under one key: `encrypt_chunk` draws a fresh one.
pub fn encrypt_chunk_with_nonce(aes_key: &[u8; 32], nonce: &[u8; 12], plaintext: &[u8]) -> (result:
    Result<Vec<u8>>)
    ensures
        match result {
            Ok(chunk) => {
                &&& plaintext@.len() <= spec_max_plaintext_len()
                &&& spec_chunk_under(aes_key@, nonce@, plaintext@) == Some(chunk@)
                &&& spec_nonce_of(chunk@) == nonce@
                &&& spec_is_encryption(aes_key@, plaintext@, chunk@)
            },
            Err(e) => {
                &&& plaintext@.len() > spec_max_plaintext_len()
                &&& spec_chunk_under(aes_key@, nonce@, plaintext@) is None
                &&& e.is(ErrorKind::CryptoError, spec_encryption_failed_message())
            },
        },
{
    match aes256_gcm_seal(aes_key, nonce, plaintext) {
        Some(sealed) => {
            let mut chunk: Vec<u8> = Vec::new();
            chunk.extend_from_slice(nonce.as_slice());
            chunk.extend_from_slice(sealed.as_slice());
            proof {
                assert(chunk@ =~= nonce@ + sealed@);
                assert(spec_nonce_of(chunk@) =~= nonce@);
                assert(spec_sealed_of(chunk@) =~= sealed@);
            }
            Ok(chunk)
        },
        None => Err(
            Error::CryptoError(String::from_str("AES-GCM encryption failed: aead::Error")),
        ),
    }
}

/// Encrypts one chunk with AES-256-GCM under a fresh random nonce.
///
/// Returns `[12-byte nonce][ciphertext][16-byte tag]`, so that the receiver
/// needs nothing but the key. Fails only where the cipher refuses the
/// plaintext, which it does for more than 2^36 bytes.
pub fn encrypt_chunk(aes_key: &[u8; 32], plaintext: &[u8]) -> (result: Result<Vec<u8>>)
    ensures
        match result {
            Ok(chunk) => {
                &&& plaintext@.len() <= spec_max_plaintext_len()
                &&& spec_chunk_under(aes_key@, spec_nonce_of(chunk@), plaintext@) == Some(chunk@)
                &&& spec_is_encryption(aes_key@, plaintext@, chunk@)
            },
            Err(e) => {
                &&& plaintext@.len() > spec_max_plaintext_len()
                &&& e.is(ErrorKind::CryptoError, spec_encryption_failed_message())
            },
        },
{
    let nonce: [u8; 12] = random_bytes::<12>();
    encrypt_chunk_with_nonce(aes_key, &nonce, plaintext)
}

/// Decrypts one chunk of the form `[12-byte nonce][ciphertext][16-byte tag]`.
///
/// Returns the plaintext where the tag authenticates the ciphertext under
/// `aes_key`. A chunk of fewer than 28 bytes is refused without a call to the
/// cipher.
pub fn decrypt_chunk(aes_key: &[u8; 32], encrypted: &[u8]) -> (result: Result<Vec<u8>>)
    ensures
        match result {
            Ok(plaintext) => {
                &&& spec_decrypt_chunk(aes_key@, encrypted@) == Some(plaintext@)
                &&& plaintext@.len() + AEAD_OVERHEAD == encrypted@.len()
            },
            Err(e) => {
                &&& spec_decrypt_chunk(aes_key@, encrypted@) is None
                &&& e.spec_kind() == ErrorKind::CryptoError
                &&& e.spec_message() == if encrypted@.len() < AEAD_OVERHEAD {
                    spec_too_short_message(encrypted@.len())
                } else {
                    spec_decryption_failed_message()
                }
            },
        },
        encrypted@.len() < AEAD_OVERHEAD ==> result is Err,
        forall|plaintext: Seq<u8>|
            spec_is_encryption(aes_key@, plaintext, encrypted@) ==> (result matches Ok(p) && p@
                == plaintext),
{
    let len: usize = encrypted.len();
    if len < AEAD_OVERHEAD {
        let message: String = String::from_str("Encrypted data too short: ").concat(
            decimal_string(len as u64).as_str(),
        ).concat(" bytes (need at least 28)");
        return Err(Error::CryptoError(message));
    }
    let nonce: &[u8] = slice_subrange(encrypted, 0, AEAD_NONCE_LEN);
    let sealed: &[u8] = slice_subrange(encrypted, AEAD_NONCE_LEN, len);
    match aes256_gcm_open(aes_key, nonce, sealed) {
        Some(plaintext) => Ok(plaintext),
        None => Err(
            Error::CryptoError(
                String::from_str("Decryption failed (authentication failure or corrupted data)"),
            ),
        ),
    }
}

/// Encrypts a whole file that fits in memory as one chunk.
pub fn encrypt_file(aes_key: &[u8; 32], data: &[u8]) -> (result: Result<Vec<u8>>)
    ensures
        match result {
            Ok(chunk) => {
                &&& data@.len() <= spec_max_plaintext_len()
                &&& spec_is_encryption(aes_key@, data@, chunk@)
            },
            Err(e) => {
                &&& data@.len() > spec_max_plaintext_len()
                &&& e.is(ErrorKind::CryptoError, spec_encryption_failed_message())
            },
        },
{
    encrypt_chunk(aes_key, data)
}

/// Decrypts a whole file that was encrypted as one chunk.
pub fn decrypt_file(aes_key: &[u8; 32], encrypted_data: &[u8]) -> (result: Result<Vec<u8>>)
    ensures
        match result {
            Ok(plaintext) => {
                &&& spec_decrypt_chunk(aes_key@, encrypted_data@) == Some(plaintext@)
                &&& plaintext@.len() + AEAD_OVERHEAD == encrypted_data@.len()
            },
            Err(e) => {
                &&& spec_decrypt_chunk(aes_key@, encrypted_data@) is None
                &&& e.spec_kind() == ErrorKind::CryptoError
                &&& e.spec_message() == if encrypted_data@.len() < AEAD_OVERHEAD {
                    spec_too_short_message(encrypted_data@.len())
                } else {
                    spec_decryption_failed_message()
                }
            },
        },
        forall|plaintext: Seq<u8>|
            spec_is_encryption(aes_key@, plaintext, encrypted_data@) ==> (result matches Ok(p)
                && p@ == plaintext),
{
    decrypt_chunk(aes_key, encrypted_data)
}

} // verus!
