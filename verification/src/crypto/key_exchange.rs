use crate::crypto::random::random_bytes;
use crate::utils::encoding::{
    decimal_string, hex_decode, hex_encode, lemma_hex_round_trip, spec_decimal, spec_hex_decode,
    spec_hex_encode, to_array,
};
use crate::utils::error::{Error, ErrorKind, Result};
use hkdf::Hkdf;
use sha2::Sha256;
use vstd::prelude::*;
use vstd::string::{StringExecFns, StringSliceAdditionalSpecFns};
use vstd::utf8::encode_utf8;

verus! {

/// The X25519 function of RFC 7748 on a 32-byte scalar and the 32-byte
/// u-coordinate of a point.
pub uninterp spec fn spec_x25519(scalar: Seq<u8>, point: Seq<u8>) -> Seq<u8>;

/// The 32 bytes that HKDF-SHA256 derives from the input key material `ikm`
/// with `salt` and `info`: extract, then expand to one block.
pub uninterp spec fn spec_hkdf_sha256(salt: Seq<u8>, ikm: Seq<u8>, info: Seq<u8>) -> Seq<u8>;

/// The u-coordinate of the base point of X25519: nine, in 32 little-endian
/// bytes.
pub open spec fn spec_x25519_basepoint() -> Seq<u8> {
    Seq::new(
        32,
        |i: int|
            if i == 0 {
                9u8
            } else {
                0u8
            },
    )
}

/// The public key that belongs to a secret.
pub open spec fn spec_public_key(secret: Seq<u8>) -> Seq<u8> {
    spec_x25519(secret, spec_x25519_basepoint())
}

/// The context string of the key derivation. Both peers must use the same.
pub open spec fn spec_hkdf_info() -> Seq<u8> {
    "File_Encryption_Test".spec_bytes()
}

/// The AES-256 key of a session: HKDF-SHA256 of the X25519 secret shared with
/// the peer, salted with the UTF-8 bytes of the session id.
pub open spec fn spec_session_key(
    secret: Seq<u8>,
    peer_public: Seq<u8>,
    session_id: Seq<char>,
) -> Seq<u8> {
    spec_hkdf_sha256(encode_utf8(session_id), spec_x25519(secret, peer_public), spec_hkdf_info())
}

/// Whether `public` is the public key of `secret`, so that every peer reaches
/// with `public` the secret that this side reaches with the peer's public key.
pub open spec fn spec_key_pair(secret: Seq<u8>, public: Seq<u8>) -> bool {
    &&& public == spec_public_key(secret)
    &&& forall|peer: Seq<u8>|
        peer.len() == 32 ==> #[trigger] spec_x25519(peer, public) == spec_x25519(
            secret,
            spec_public_key(peer),
        )
}

/// The text of the error for a public key of `len` bytes.
pub open spec fn spec_key_length_message(len: nat) -> Seq<char> {
    "Invalid public key length: expected 32 bytes, got "@ + spec_decimal(len)
}

/// What parsing `text` as a public key gives: its 32 bytes, or the text of
/// the error.
pub open spec fn spec_parse_public_key(text: Seq<char>) -> std::result::Result<
    Seq<u8>,
    Seq<char>,
> {
    match spec_hex_decode(text) {
        None => Err("Invalid hex public key"@),
        Some(bytes) => if bytes.len() == 32 {
            Ok(bytes)
        } else {
            Err(spec_key_length_message(bytes.len()))
        },
    }
}

/// The secret half of an ephemeral key pair. It cannot be copied: key
/// agreement consumes it.
pub struct EphemeralSecret {
    bytes: [u8; 32],
}

/// The public half of an ephemeral key pair.
#[derive(Clone, Copy, Debug)]
pub struct PublicKey {
    bytes: [u8; 32],
}

/// Ephemeral key pair of one transfer session.
pub struct EphemeralKeyPair {
    pub secret: EphemeralSecret,
    pub public: PublicKey,
}

impl View for EphemeralSecret {
    type V = Seq<u8>;

    closed spec fn view(&self) -> Seq<u8> {
        self.bytes@
    }
}

impl View for PublicKey {
    type V = Seq<u8>;

    closed spec fn view(&self) -> Seq<u8> {
        self.bytes@
    }
}

impl EphemeralSecret {
    /// A secret is 32 bytes long.
    pub proof fn lemma_len(self)
        ensures
            self@.len() == 32,
    {
    }
}

impl PublicKey {
    /// A public key is 32 bytes long.
    pub proof fn lemma_len(self)
        ensures
            self@.len() == 32,
    {
    }

    /// The public key with the given bytes.
    pub fn from_bytes(bytes: [u8; 32]) -> (key: PublicKey)
        ensures
            key@ == bytes@,
    {
        PublicKey { bytes }
    }

    /// The bytes of the key.
    pub fn as_bytes(&self) -> (bytes: &[u8; 32])
        ensures
            bytes@ == self@,
    {
        &self.bytes
    }

    /// The bytes of the key.
    pub fn to_bytes(&self) -> (bytes: [u8; 32])
        ensures
            bytes@ == self@,
    {
        self.bytes
    }
}

impl EphemeralKeyPair {
    /// Whether the public key belongs to the secret.
    pub open spec fn wf(&self) -> bool {
        spec_key_pair(self.secret@, self.public@)
    }

    /// The key pair of a secret: the public key is X25519 of the secret and
    /// the base point. The secret must come from a cryptographically secure
    /// random number generator and serve one transfer only; `generate` draws
    /// one.
    pub fn from_secret(secret: [u8; 32]) -> (pair: EphemeralKeyPair)
        ensures
            pair.secret@ == secret@,
            pair.public@ == spec_public_key(secret@),
            pair.wf(),
    {
        let public: [u8; 32] = x25519(&secret, &basepoint());
        EphemeralKeyPair {
            secret: EphemeralSecret { bytes: secret },
            public: PublicKey { bytes: public },
        }
    }

    /// Generates a fresh key pair for one transfer.
    pub fn generate() -> (pair: EphemeralKeyPair)
        ensures
            pair.wf(),
    {
        Self::from_secret(random_bytes::<32>())
    }

    /// The public key as lower-case hexadecimal text, for transmission.
    pub fn public_key_hex(&self) -> (text: String)
        ensures
            text@ == spec_hex_encode(self.public@),
    {
        hex_encode(self.public.bytes.as_slice())
    }
}

/// Both peers of a key exchange derive the same session key: what one side
/// derives from its secret and the other's public key is what the other side
/// derives from its secret and the first side's public key.
pub proof fn lemma_key_exchange_symmetric(
    a: EphemeralKeyPair,
    b: EphemeralKeyPair,
    session_id: Seq<char>,
)
    requires
        a.wf(),
        b.wf(),
    ensures
        spec_x25519(a.secret@, b.public@) == spec_x25519(b.secret@, a.public@),
        spec_session_key(a.secret@, b.public@, session_id) == spec_session_key(
            b.secret@,
            a.public@,
            session_id,
        ),
{
    b.secret.lemma_len();
    assert(spec_x25519(b.secret@, a.public@) == spec_x25519(a.secret@, spec_public_key(b.secret@)));
}

/// Both peers of a session hold the same AES-256 key: each publishes its
/// public key as hexadecimal text, parses the text of the other and derives
/// the key of the session from it and from its own secret.
pub proof fn lemma_peers_share_the_session_key(
    a: EphemeralKeyPair,
    b: EphemeralKeyPair,
    session_id: Seq<char>,
)
    requires
        a.wf(),
        b.wf(),
    ensures
        spec_parse_public_key(spec_hex_encode(a.public@)) == Ok::<Seq<u8>, Seq<char>>(a.public@),
        spec_parse_public_key(spec_hex_encode(b.public@)) == Ok::<Seq<u8>, Seq<char>>(b.public@),
        spec_session_key(a.secret@, b.public@, session_id) == spec_session_key(
            b.secret@,
            a.public@,
            session_id,
        ),
{
    lemma_hex_round_trip(a.public@);
    lemma_hex_round_trip(b.public@);
    a.public.lemma_len();
    b.public.lemma_len();
    lemma_key_exchange_symmetric(a, b, session_id);
}

/// The X25519 function.
///
/// Trusted: calls `x25519_dalek::x25519`, the byte-oriented function of
/// RFC 7748. On the base point it gives the public key of the scalar, and
/// then Diffie-Hellman agrees: any other scalar, applied to that public key,
/// gives what this scalar gives on the other's public key.
#[verifier::external_body]
fn x25519(scalar: &[u8; 32], point: &[u8; 32]) -> (product: [u8; 32])
    ensures
        product@ == spec_x25519(scalar@, point@),
        point@ == spec_x25519_basepoint() ==> spec_key_pair(scalar@, product@),
{
    x25519_dalek::x25519(*scalar, *point)
}

/// HKDF-SHA256 with a 32-byte output.
///
/// Trusted: calls `Hkdf::<Sha256>::new` and `expand` of hkdf. `expand` fails
/// only for an output of more than 255 blocks, so never here.
#[verifier::external_body]
fn hkdf_sha256(salt: &[u8], ikm: &[u8], info: &[u8]) -> (okm: Option<[u8; 32]>)
    ensures
        match okm {
            Some(key) => key@ == spec_hkdf_sha256(salt@, ikm@, info@),
            None => false,
        },
{
    let mut block = [0u8; 32];
    match Hkdf::<Sha256>::new(Some(salt), ikm).expand(info, &mut block) {
        Ok(()) => Some(block),
        Err(_) => None,
    }
}

/// The u-coordinate of the base point.
fn basepoint() -> (point: [u8; 32])
    ensures
        point@ == spec_x25519_basepoint(),
{
    let mut point: [u8; 32] = [0u8; 32];
    point[0] = 9u8;
    assert(point@ =~= spec_x25519_basepoint());
    point
}

/// Parses a public key from hexadecimal text of either case.
pub fn parse_public_key(hex_str: &str) -> (result: Result<PublicKey>)
    ensures
        match result {
            Ok(key) => spec_parse_public_key(hex_str@) == Ok::<Seq<u8>, Seq<char>>(key@),
            Err(e) => e.spec_kind() == ErrorKind::CryptoError && spec_parse_public_key(hex_str@)
                == Err::<Seq<u8>, Seq<char>>(e.spec_message()),
        },
{
    match hex_decode(hex_str) {
        None => Err(Error::CryptoError(String::from_str("Invalid hex public key"))),
        Some(bytes) => {
            if bytes.len() != 32 {
                let message: String = String::from_str(
                    "Invalid public key length: expected 32 bytes, got ",
                ).concat(decimal_string(bytes.len() as u64).as_str());
                Err(Error::CryptoError(message))
            } else {
                Ok(PublicKey { bytes: to_array::<32>(bytes.as_slice()) })
            }
        },
    }
}

/// Computes the X25519 secret shared between our secret and their public key.
/// The secret is consumed.
pub fn compute_shared_secret(our_secret: EphemeralSecret, their_public: PublicKey) -> (shared:
    [u8; 32])
    ensures
        shared@ == spec_x25519(our_secret@, their_public@),
{
    x25519(&our_secret.bytes, &their_public.bytes)
}

/// Derives the AES-256 key of a session from the shared secret with
/// HKDF-SHA256. The session id is the salt, so that no two sessions share a
/// key even where the ephemeral keys repeat.
pub fn derive_aes_key(shared_secret: &[u8; 32], session_id: &str) -> (result: Result<[u8; 32]>)
    ensures
        result matches Ok(key) && key@ == spec_hkdf_sha256(
            encode_utf8(session_id@),
            shared_secret@,
            spec_hkdf_info(),
        ),
{
    match hkdf_sha256(
        session_id.as_bytes(),
        shared_secret.as_slice(),
        "File_Encryption_Test".as_bytes(),
    ) {
        Some(key) => Ok(key),
        None => Err(Error::CryptoError(String::from_str("HKDF key derivation failed"))),
    }
}

/// The whole key exchange: parses the peer's public key, computes the shared
/// secret and derives the AES-256 key of the session.
pub fn perform_key_exchange(
    our_secret: EphemeralSecret,
    their_public_hex: &str,
    session_id: &str,
) -> (result: Result<[u8; 32]>)
    ensures
        match result {
            Ok(key) => spec_parse_public_key(their_public_hex@) matches Ok(public) && key@
                == spec_session_key(our_secret@, public, session_id@),
            Err(e) => e.spec_kind() == ErrorKind::CryptoError && spec_parse_public_key(
                their_public_hex@,
            ) == Err::<Seq<u8>, Seq<char>>(e.spec_message()),
        },
{
    let their_public: PublicKey = parse_public_key(their_public_hex)?;
    let shared_secret: [u8; 32] = compute_shared_secret(our_secret, their_public);
    derive_aes_key(&shared_secret, session_id)
}

} // verus!
