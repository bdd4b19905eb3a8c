use vstd::prelude::*;

verus! {

/// Size of the plaintext chunks read from a file during transfer (1 MiB).
pub const FILE_CHUNK_SIZE: usize = 1048576;

/// Size of the chunks read when hashing a file (4 MiB).
pub const HASH_CHUNK_SIZE: usize = 4194304;

/// Capacity of the socket buffers and of the buffered reader and writer (4 MiB).
pub const BUFFER_SIZE: usize = 4194304;

/// Smallest file size suggested for transfer (10 MiB); advisory only.
pub const MIN_FILE_SIZE: u64 = 10485760;

/// Largest file size suggested for transfer (10 GiB); advisory only.
pub const MAX_FILE_SIZE: u64 = 10737418240;

/// Address of the public relay.
pub const DEFAULT_PUBLIC_IP: &'static str = "217.160.136.206";

/// Address of a relay on the local machine.
pub const DEFAULT_PRIVATE_IP: &'static str = "127.0.0.1";

/// HTTP port of the relay.
pub const DEFAULT_HTTP_PORT: u16 = 8080;

/// TCP port of the relay.
pub const DEFAULT_SOCKET_PORT: u16 = 10000;

/// Length of an Ed25519 public key in bytes.
pub const ED25519_PUBLIC_KEY_LEN: usize = 32;

/// Length of an Ed25519 expanded private key in bytes.
pub const ED25519_PRIVATE_KEY_LEN: usize = 64;

/// Length of an Ed25519 signature in bytes.
pub const ED25519_SIGNATURE_LEN: usize = 64;

/// Length of a SHA-256 digest in bytes.
pub const SHA256_HASH_LEN: usize = 32;

/// Number of hex characters shown of a fingerprint.
pub const KEY_FINGERPRINT_DISPLAY_LEN: usize = 16;

/// Length of the nonce that opens every encrypted chunk.
pub const AEAD_NONCE_LEN: usize = 12;

/// Length of the authentication tag that closes every encrypted chunk.
pub const AEAD_TAG_LEN: usize = 16;

/// Bytes that encryption adds to a chunk: nonce and tag.
pub const AEAD_OVERHEAD: usize = 28;

/// Length of the big-endian length prefix of a frame.
pub const FRAME_PREFIX_LEN: usize = 4;

/// Name of the application.
pub const APP_NAME: &'static str = "R-Share";

/// Version of the application.
pub const APP_VERSION: &'static str = "1.0.0-beta";

/// Terminator of every line and control signal on the socket.
pub const PROTOCOL_DELIMITER: &'static str = "\n";

/// Prefix of the control signals that report a failure.
pub const ERROR_SIGNAL_PREFIX: &'static str = "ERROR:";

/// Pause after the acknowledgement of the pairing, in milliseconds. The relay
/// needs it to switch the socket into forwarding mode.
pub const MAX_DONE_WAIT_MILLIS: u64 = 100;

/// Longest contact name accepted.
pub const MAX_CONTACT_NAME_LEN: usize = 50;

/// Longest file name accepted.
pub const MAX_FILENAME_LEN: usize = 255;

/// The bytes of `DONE\n`.
pub open spec fn spec_done_signal() -> Seq<u8> {
    seq![68u8, 79u8, 78u8, 69u8, 10u8]
}

/// The bytes of `READY\n`.
pub open spec fn spec_ready_signal() -> Seq<u8> {
    seq![82u8, 69u8, 65u8, 68u8, 89u8, 10u8]
}

/// The bytes of `ACK\n`.
pub open spec fn spec_ack_signal() -> Seq<u8> {
    seq![65u8, 67u8, 75u8, 10u8]
}

/// The bytes of `ERROR:signature_failed\n`.
pub open spec fn spec_signature_failed_signal() -> Seq<u8> {
    seq![
        69u8, 82u8, 82u8, 79u8, 82u8, 58u8, 115u8, 105u8, 103u8, 110u8, 97u8, 116u8, 117u8, 114u8,
        101u8, 95u8, 102u8, 97u8, 105u8, 108u8, 101u8, 100u8, 10u8,
    ]
}

/// The bytes of `ERROR:hash_mismatch\n`.
pub open spec fn spec_hash_mismatch_signal() -> Seq<u8> {
    seq![
        69u8, 82u8, 82u8, 79u8, 82u8, 58u8, 104u8, 97u8, 115u8, 104u8, 95u8, 109u8, 105u8, 115u8,
        109u8, 97u8, 116u8, 99u8, 104u8, 10u8,
    ]
}

/// Signal that the receiver sends after it has verified the file.
pub fn done_signal() -> (signal: Vec<u8>)
    ensures
        signal@ == spec_done_signal(),
{
    let signal: Vec<u8> = vec![68u8, 79u8, 78u8, 69u8, 10u8];
    assert(signal@ =~= spec_done_signal());
    signal
}

/// Signal that the relay sends once both peers are paired.
pub fn ready_signal() -> (signal: Vec<u8>)
    ensures
        signal@ == spec_ready_signal(),
{
    let signal: Vec<u8> = vec![82u8, 69u8, 65u8, 68u8, 89u8, 10u8];
    assert(signal@ =~= spec_ready_signal());
    signal
}

/// Signal with which a peer acknowledges the pairing.
pub fn ack_signal() -> (signal: Vec<u8>)
    ensures
        signal@ == spec_ack_signal(),
{
    let signal: Vec<u8> = vec![65u8, 67u8, 75u8, 10u8];
    assert(signal@ =~= spec_ack_signal());
    signal
}

/// Signal that the receiver sends when the metadata signature is rejected.
pub fn signature_failed_signal() -> (signal: Vec<u8>)
    ensures
        signal@ == spec_signature_failed_signal(),
{
    let signal: Vec<u8> = vec![
        69u8, 82u8, 82u8, 79u8, 82u8, 58u8, 115u8, 105u8, 103u8, 110u8, 97u8, 116u8, 117u8, 114u8,
        101u8, 95u8, 102u8, 97u8, 105u8, 108u8, 101u8, 100u8, 10u8,
    ];
    assert(signal@ =~= spec_signature_failed_signal());
    signal
}

/// Signal that the receiver sends when the written file does not hash to the
/// announced value.
pub fn hash_mismatch_signal() -> (signal: Vec<u8>)
    ensures
        signal@ == spec_hash_mismatch_signal(),
{
    let signal: Vec<u8> = vec![
        69u8, 82u8, 82u8, 79u8, 82u8, 58u8, 104u8, 97u8, 115u8, 104u8, 95u8, 109u8, 105u8, 115u8,
        109u8, 97u8, 116u8, 99u8, 104u8, 10u8,
    ];
    assert(signal@ =~= spec_hash_mismatch_signal());
    signal
}

} // verus!
