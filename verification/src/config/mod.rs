//! Constants shared by both peers.

pub mod constants;

pub use constants::{
    ack_signal, done_signal, hash_mismatch_signal, ready_signal, signature_failed_signal,
    AEAD_NONCE_LEN, AEAD_OVERHEAD, AEAD_TAG_LEN, APP_NAME, APP_VERSION, BUFFER_SIZE,
    DEFAULT_HTTP_PORT, DEFAULT_PRIVATE_IP, DEFAULT_PUBLIC_IP, DEFAULT_SOCKET_PORT,
    ED25519_PRIVATE_KEY_LEN, ED25519_PUBLIC_KEY_LEN, ED25519_SIGNATURE_LEN, ERROR_SIGNAL_PREFIX,
    FILE_CHUNK_SIZE, FRAME_PREFIX_LEN, HASH_CHUNK_SIZE, KEY_FINGERPRINT_DISPLAY_LEN,
    MAX_CONTACT_NAME_LEN, MAX_DONE_WAIT_MILLIS, MAX_FILENAME_LEN, MAX_FILE_SIZE, MIN_FILE_SIZE,
    PROTOCOL_DELIMITER, SHA256_HASH_LEN,
};
