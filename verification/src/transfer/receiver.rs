use crate::config::constants::{
    done_signal, hash_mismatch_signal, signature_failed_signal, spec_done_signal,
    spec_hash_mismatch_signal, spec_signature_failed_signal, AEAD_OVERHEAD, FRAME_PREFIX_LEN,
    MAX_FILENAME_LEN,
};
use crate::crypto::encryption::{
    decrypt_chunk, spec_decrypt_chunk, spec_decryption_failed_message, spec_too_short_message,
};
use crate::crypto::key_exchange::{
    perform_key_exchange, spec_parse_public_key, spec_session_key, EphemeralKeyPair, PublicKey,
};
use crate::crypto::signing::{
    lemma_signature_text_round_trip, parse_signature, spec_ed25519_is_point,
    spec_ed25519_verify_strict, spec_parse_signature, verify_signature, Signature, VerifyingKey,
};
use crate::server::relay::TransferSession;
use crate::transfer::envelope::{
    lemma_mutation_changes_signed_bytes, metadata_envelope, spec_has_separator, spec_signed_bytes,
};
use crate::transfer::framing::{
    decode_length, out_of_order_error, overflow_error, spec_from_be32, spec_out_of_order_message,
    spec_overflow_message,
};
use crate::utils::encoding::{
    hex_decode, lemma_hex_round_trip, spec_hex_decode, spec_hex_encode, to_array,
};
use crate::utils::error::{Error, ErrorKind, IoFailure};
use vstd::prelude::*;
use vstd::string::StringExecFns;

verus! {

/// Why a session or a transfer is given up: the error for the user, and the
/// control signal for the peer where one is due.
pub struct Refusal {
    pub kind: ErrorKind,
    pub message: Seq<char>,
    pub signal: Option<Seq<u8>>,
}

/// What ends a reception: the error for the user, and the control signal for
/// the sender where one is due.
#[derive(Debug)]
pub struct Rejection {
    pub error: Error,
    pub signal: Option<Vec<u8>>,
}

impl View for Rejection {
    type V = Refusal;

    open spec fn view(&self) -> Refusal {
        Refusal {
            kind: self.error.spec_kind(),
            message: self.error.spec_message(),
            signal: match self.signal {
                Some(bytes) => Some(bytes@),
                None => None,
            },
        }
    }
}

/// A refusal without a signal for the peer.
pub open spec fn spec_refuse(kind: ErrorKind, message: Seq<char>) -> Option<Refusal> {
    Some(Refusal { kind, message, signal: None })
}

/// Whether a file name from the network may be joined to the download
/// directory: it is not empty, not longer than 255 characters, neither `.`
/// nor `..`, and holds no path separator of any platform.
pub open spec fn spec_is_safe_filename(name: Seq<char>) -> bool {
    &&& 0 < name.len() <= MAX_FILENAME_LEN
    &&& name != seq!['.']
    &&& name != seq!['.', '.']
    &&& forall|i: int| 0 <= i < name.len() ==> name[i] != '/' && name[i] != '\\'
}

/// The part of a fingerprint that is shown: its first sixteen characters.
pub open spec fn spec_shown_fingerprint(fingerprint: Seq<char>) -> Seq<char> {
    if fingerprint.len() <= 16 {
        fingerprint
    } else {
        fingerprint.subrange(0, 16)
    }
}

/// The text of the error for a sender that is not the expected contact.
pub open spec fn spec_mismatch_message(expected: Seq<char>, got: Seq<char>) -> Seq<char> {
    "Sender fingerprint mismatch! Expected "@ + spec_shown_fingerprint(expected) + ", got "@
        + spec_shown_fingerprint(got)
}

/// The text of the error for a contact that is not known.
pub open spec fn spec_unknown_contact_message(name: Seq<char>) -> Seq<char> {
    "Contact '"@ + name + "' not found in trusted contacts"@
}

/// Why the receiver refuses a session that the relay reports, or `None`
/// where it accepts it. The checks, in this order: the metadata is complete;
/// the sender is the expected contact; its fingerprint is a public key; the
/// signature is well-formed and signs, strictly verified, the envelope that
/// the metadata gives; the file name is safe; the sender's ephemeral key is
/// there and well-formed. Only the failed signature is signalled to the
/// sender.
pub open spec fn spec_session_refusal(
    session: TransferSession,
    expected_sender: Seq<char>,
) -> Option<Refusal> {
    if session.filename is None {
        spec_refuse(ErrorKind::InvalidInput, "No filename in session"@)
    } else if session.file_size is None {
        spec_refuse(ErrorKind::InvalidInput, "No file size in session"@)
    } else if session.signature is None {
        spec_refuse(ErrorKind::InvalidInput, "No signature in session"@)
    } else if session.sender_fp is None {
        spec_refuse(ErrorKind::InvalidInput, "No sender fingerprint in session"@)
    } else if session.file_hash is None {
        spec_refuse(ErrorKind::InvalidInput, "No file hash in session"@)
    } else {
        let filename = session.filename->0@;
        let file_size = session.file_size->0 as nat;
        let signature = session.signature->0@;
        let sender = session.sender_fp->0@;
        let file_hash = session.file_hash->0@;
        if sender != expected_sender {
            spec_refuse(ErrorKind::InvalidInput, spec_mismatch_message(expected_sender, sender))
        } else {
            match spec_hex_decode(sender) {
                None => spec_refuse(ErrorKind::InvalidInput, "Invalid sender public key"@),
                Some(key) => if key.len() != 32 {
                    spec_refuse(ErrorKind::InvalidInput, "Invalid key length"@)
                } else if !spec_ed25519_is_point(key) {
                    spec_refuse(ErrorKind::InvalidInput, "Invalid sender key"@)
                } else {
                    match spec_parse_signature(signature) {
                        Err(message) => spec_refuse(ErrorKind::InvalidInput, message),
                        Ok(signed) => if !spec_ed25519_verify_strict(
                            key,
                            spec_signed_bytes(filename, file_size, file_hash),
                            signed,
                        ) {
                            Some(
                                Refusal {
                                    kind: ErrorKind::InvalidInput,
                                    message: "Signature verification failed"@,
                                    signal: Some(spec_signature_failed_signal()),
                                },
                            )
                        } else if !spec_is_safe_filename(filename) {
                            spec_refuse(ErrorKind::InvalidInput, "Unsafe file name in session"@)
                        } else if session.sender_ephemeral_key is None {
                            spec_refuse(ErrorKind::CryptoError, "Sender ephemeral key not found"@)
                        } else {
                            match spec_parse_public_key(session.sender_ephemeral_key->0@) {
                                Err(message) => spec_refuse(ErrorKind::CryptoError, message),
                                Ok(_) => None,
                            }
                        },
                    }
                },
            }
        }
    }
}

/// A session that the receiver accepts carries a signature that strict
/// verification accepts, under the key of the expected contact, for the
/// envelope of exactly the file name, size and hash that the session reports.
pub proof fn lemma_accepted_session_is_signed(session: TransferSession, expected_sender: Seq<char>)
    requires
        spec_session_refusal(session, expected_sender) is None,
    ensures
        session.spec_complete_metadata(),
        session.sender_fp->0@ == expected_sender,
        spec_hex_decode(expected_sender) matches Some(key) && spec_parse_signature(
            session.signature->0@,
        ) matches Ok(signed) && spec_ed25519_verify_strict(
            key,
            spec_signed_bytes(
                session.filename->0@,
                session.file_size->0 as nat,
                session.file_hash->0@,
            ),
            signed,
        ),
        spec_is_safe_filename(session.filename->0@),
{
}

/// Changed metadata is accepted only with a forged signature: where the
/// receiver accepts a session whose file name, size or hash differ from the
/// ones that the sender signed, strict verification has accepted the
/// signature for bytes other than the signed ones. This holds as long as
/// neither hash holds a separator.
pub proof fn lemma_changed_metadata_needs_forgery(
    session: TransferSession,
    expected_sender: Seq<char>,
    filename: Seq<char>,
    file_size: nat,
    file_hash: Seq<char>,
)
    requires
        spec_session_refusal(session, expected_sender) is None,
        session.filename->0@ != filename || session.file_size->0 != file_size
            || session.file_hash->0@ != file_hash,
        !spec_has_separator(file_hash),
        !spec_has_separator(session.file_hash->0@),
    ensures
        spec_hex_decode(expected_sender) matches Some(key) && spec_parse_signature(
            session.signature->0@,
        ) matches Ok(signed) && spec_ed25519_verify_strict(
            key,
            spec_signed_bytes(
                session.filename->0@,
                session.file_size->0 as nat,
                session.file_hash->0@,
            ),
            signed,
        ),
        spec_signed_bytes(
            session.filename->0@,
            session.file_size->0 as nat,
            session.file_hash->0@,
        ) != spec_signed_bytes(filename, file_size, file_hash),
{
    lemma_accepted_session_is_signed(session, expected_sender);
    lemma_mutation_changes_signed_bytes(
        session.filename->0@,
        session.file_size->0 as nat,
        session.file_hash->0@,
        filename,
        file_size,
        file_hash,
    );
}

/// A signature that strict verification rejects is signalled: where a
/// session from the expected contact carries well-formed metadata, a
/// fingerprint that is a public key and a well-formed signature, and strict
/// verification rejects the signature for the envelope of the reported file
/// name, size and hash, the receiver refuses the session with the signal
/// `ERROR:signature_failed`. No download comes to be, so nothing is written
/// and no frame is read.
pub proof fn lemma_rejected_signature_is_signalled(
    session: TransferSession,
    verifying_key: VerifyingKey,
    signature: Signature,
)
    requires
        session.spec_complete_metadata(),
        spec_ed25519_is_point(verifying_key@),
        session.sender_fp->0@ == spec_hex_encode(verifying_key@),
        session.signature->0@ == spec_hex_encode(signature@),
        !spec_ed25519_verify_strict(
            verifying_key@,
            spec_signed_bytes(
                session.filename->0@,
                session.file_size->0 as nat,
                session.file_hash->0@,
            ),
            signature@,
        ),
    ensures
        spec_session_refusal(session, spec_hex_encode(verifying_key@)) == Some(
            Refusal {
                kind: ErrorKind::InvalidInput,
                message: "Signature verification failed"@,
                signal: Some(spec_signature_failed_signal()),
            },
        ),
{
    lemma_hex_round_trip(verifying_key@);
    verifying_key.lemma_len();
    lemma_signature_text_round_trip(signature);
}

/// A session that reports what an honest sender announced is accepted: the
/// fingerprint is the text of the sender's public key and the expected one,
/// the signature is the text of a signature that strict verification accepts
/// for the envelope of the reported metadata, the file name is safe and the
/// ephemeral key is the text of a public key.
pub proof fn lemma_honest_session_is_accepted(
    session: TransferSession,
    verifying_key: VerifyingKey,
    signature: Signature,
    ephemeral: PublicKey,
)
    requires
        session.spec_complete(),
        spec_ed25519_is_point(verifying_key@),
        session.sender_fp->0@ == spec_hex_encode(verifying_key@),
        session.signature->0@ == spec_hex_encode(signature@),
        spec_ed25519_verify_strict(
            verifying_key@,
            spec_signed_bytes(
                session.filename->0@,
                session.file_size->0 as nat,
                session.file_hash->0@,
            ),
            signature@,
        ),
        spec_is_safe_filename(session.filename->0@),
        session.sender_ephemeral_key->0@ == spec_hex_encode(ephemeral@),
    ensures
        spec_session_refusal(session, spec_hex_encode(verifying_key@)) is None,
{
    lemma_hex_round_trip(verifying_key@);
    verifying_key.lemma_len();
    lemma_signature_text_round_trip(signature);
    lemma_hex_round_trip(ephemeral@);
    ephemeral.lemma_len();
}

/// Whether a file name from the network may be joined to the download
/// directory.
pub fn is_safe_filename(name: &str) -> (safe: bool)
    ensures
        safe == spec_is_safe_filename(name@),
{
    let len: usize = name.unicode_len();
    if len == 0 || len > MAX_FILENAME_LEN {
        return false;
    }
    if len == 1 && name.get_char(0) == '.' {
        assert(name@ =~= seq!['.']);
        return false;
    }
    if len == 2 && name.get_char(0) == '.' && name.get_char(1) == '.' {
        assert(name@ =~= seq!['.', '.']);
        return false;
    }
    let mut i: usize = 0;
    while i < len
        invariant
            i <= len,
            len == name@.len(),
            forall|j: int| 0 <= j < i ==> name@[j] != '/' && name@[j] != '\\',
        decreases len - i,
    {
        let c: char = name.get_char(i);
        if c == '/' || c == '\\' {
            return false;
        }
        i = i + 1;
    }
    assert(name@ != seq!['.']) by {
        if name@ == seq!['.'] {
            assert(name@.len() == 1);
            assert(name@[0] == '.');
        }
    }
    assert(name@ != seq!['.', '.']) by {
        if name@ == seq!['.', '.'] {
            assert(name@.len() == 2);
            assert(name@[0] == '.' && name@[1] == '.');
        }
    }
    true
}

/// The part of a fingerprint that is shown.
fn shown_fingerprint(fingerprint: &str) -> (shown: &str)
    ensures
        shown@ == spec_shown_fingerprint(fingerprint@),
{
    let len: usize = fingerprint.unicode_len();
    if len <= 16 {
        fingerprint
    } else {
        fingerprint.substring_char(0, 16)
    }
}

/// A refusal without a signal.
fn refuse_input(message: &str) -> (rejection: Rejection)
    ensures
        Some(rejection@) == spec_refuse(ErrorKind::InvalidInput, message@),
{
    Rejection { error: Error::InvalidInput(String::from_str(message)), signal: None }
}

/// The receiving side before the session is open: it knows whom it expects,
/// and holds the ephemeral key pair of the transfer.
pub struct Receiver {
    expected_sender: String,
    pair: EphemeralKeyPair,
}

impl Receiver {
    /// The fingerprint of the contact from whom a file is expected.
    pub closed spec fn spec_expected_sender(&self) -> Seq<char> {
        self.expected_sender@
    }

    /// The secret of the ephemeral key pair.
    pub closed spec fn spec_secret(&self) -> Seq<u8> {
        self.pair.secret@
    }

    /// The public key of the ephemeral key pair.
    pub closed spec fn spec_public(&self) -> Seq<u8> {
        self.pair.public@
    }

    /// Whether the ephemeral public key belongs to the secret.
    pub closed spec fn wf(&self) -> bool {
        self.pair.wf()
    }

    /// Prepares to receive from the contact called `from`, whose fingerprint
    /// the list of contacts gives as `contact`, with the given ephemeral key
    /// pair. A contact that is not known is refused.
    pub fn with_key_pair(contact: Option<String>, from: &str, pair: EphemeralKeyPair) -> (result:
        std::result::Result<Receiver, Error>)
        ensures
            match result {
                Ok(receiver) => {
                    &&& contact matches Some(fingerprint)
                    &&& receiver.spec_expected_sender() == fingerprint@
                    &&& receiver.spec_secret() == pair.secret@
                    &&& receiver.spec_public() == pair.public@
                    &&& receiver.wf() == pair.wf()
                },
                Err(e) => contact is None && e.is(
                    ErrorKind::InvalidInput,
                    spec_unknown_contact_message(from@),
                ),
            },
    {
        match contact {
            Some(expected_sender) => Ok(Receiver { expected_sender, pair }),
            None => Err(
                Error::InvalidInput(
                    String::from_str("Contact '").concat(from).concat(
                        "' not found in trusted contacts",
                    ),
                ),
            ),
        }
    }

    /// Prepares to receive from the contact called `from`, whose fingerprint
    /// the list of contacts gives as `contact`, and generates the ephemeral
    /// key pair of the transfer. A contact that is not known is refused.
    pub fn new(contact: Option<String>, from: &str) -> (result: std::result::Result<
        Receiver,
        Error,
    >)
        ensures
            match result {
                Ok(receiver) => contact matches Some(fingerprint)
                    && receiver.spec_expected_sender() == fingerprint@ && receiver.wf(),
                Err(e) => contact is None && e.is(
                    ErrorKind::InvalidInput,
                    spec_unknown_contact_message(from@),
                ),
            },
    {
        Self::with_key_pair(contact, from, EphemeralKeyPair::generate())
    }

    /// The ephemeral public key as hexadecimal text, for the relay.
    pub fn public_key_hex(&self) -> (text: String)
        ensures
            text@ == spec_hex_encode(self.spec_public()),
    {
        self.pair.public_key_hex()
    }

    /// Checks the session that the relay reports and, where it holds,
    /// derives the key of the session.
    ///
    /// A session is accepted only from the expected contact and only with a
    /// valid signature over its metadata: no download exists, and so nothing
    /// is written to disk, before both have been checked.
    pub fn accept(self, session: &TransferSession) -> (result: std::result::Result<
        Download,
        Rejection,
    >)
        ensures
            match result {
                Ok(download) => {
                    &&& spec_session_refusal(*session, self.spec_expected_sender()) is None
                    &&& download.spec_phase() == DownloadPhase::Idle
                    &&& download.spec_filename() == session.filename->0@
                    &&& download.spec_file_size() == session.file_size->0
                    &&& download.spec_expected_hash() == session.file_hash->0@
                    &&& download.spec_received() == 0
                    &&& spec_parse_public_key(session.sender_ephemeral_key->0@) matches Ok(
                        public,
                    )
                    &&& download.spec_key() == spec_session_key(
                        self.spec_secret(),
                        public,
                        session.session_id@,
                    )
                },
                Err(rejection) => spec_session_refusal(*session, self.spec_expected_sender())
                    == Some(rejection@),
            },
    {
        let filename: &String = match &session.filename {
            Some(filename) => filename,
            None => {
                return Err(refuse_input("No filename in session"));
            },
        };
        let file_size: u64 = match session.file_size {
            Some(file_size) => file_size,
            None => {
                return Err(refuse_input("No file size in session"));
            },
        };
        let signature_hex: &String = match &session.signature {
            Some(signature) => signature,
            None => {
                return Err(refuse_input("No signature in session"));
            },
        };
        let sender: &String = match &session.sender_fp {
            Some(sender) => sender,
            None => {
                return Err(refuse_input("No sender fingerprint in session"));
            },
        };
        let file_hash: &String = match &session.file_hash {
            Some(file_hash) => file_hash,
            None => {
                return Err(refuse_input("No file hash in session"));
            },
        };
        if *sender != self.expected_sender {
            let message: String = String::from_str("Sender fingerprint mismatch! Expected ").concat(
                shown_fingerprint(self.expected_sender.as_str()),
            ).concat(", got ").concat(shown_fingerprint(sender.as_str()));
            return Err(Rejection { error: Error::InvalidInput(message), signal: None });
        }
        let key_bytes: Vec<u8> = match hex_decode(sender.as_str()) {
            Some(bytes) => bytes,
            None => {
                return Err(refuse_input("Invalid sender public key"));
            },
        };
        if key_bytes.len() != 32 {
            return Err(refuse_input("Invalid key length"));
        }
        let sender_key: VerifyingKey = match VerifyingKey::from_bytes(
            &to_array::<32>(key_bytes.as_slice()),
        ) {
            Ok(key) => key,
            Err(_) => {
                return Err(refuse_input("Invalid sender key"));
            },
        };
        let envelope: String = metadata_envelope(filename.as_str(), file_size, file_hash.as_str());
        let signature: Signature = match parse_signature(signature_hex.as_str()) {
            Ok(signature) => signature,
            Err(e) => {
                return Err(Rejection { error: e, signal: None });
            },
        };
        if verify_signature(&sender_key, envelope.as_str(), &signature).is_err() {
            return Err(
                Rejection {
                    error: Error::InvalidInput(String::from_str("Signature verification failed")),
                    signal: Some(signature_failed_signal()),
                },
            );
        }
        if !is_safe_filename(filename.as_str()) {
            return Err(refuse_input("Unsafe file name in session"));
        }
        let sender_ephemeral: &String = match &session.sender_ephemeral_key {
            Some(key) => key,
            None => {
                return Err(
                    Rejection {
                        error: Error::CryptoError(
                            String::from_str("Sender ephemeral key not found"),
                        ),
                        signal: None,
                    },
                );
            },
        };
        let key: [u8; 32] = match perform_key_exchange(
            self.pair.secret,
            sender_ephemeral.as_str(),
            session.session_id.as_str(),
        ) {
            Ok(key) => key,
            Err(e) => {
                return Err(Rejection { error: e, signal: None });
            },
        };
        Ok(
            Download {
                phase: DownloadPhase::Idle,
                key,
                filename: filename.clone(),
                file_size,
                received: 0,
                frame_len: 0,
                expected_hash: file_hash.clone(),
            },
        )
    }
}

/// How far a download has come.
#[derive(Debug, Clone, Copy, PartialEq, Eq, Structural)]
pub enum DownloadPhase {
    /// The session is accepted; nothing has been done yet.
    Idle,
    /// The output file is being created.
    Opening,
    /// The four bytes before the next blob are awaited.
    AwaitingPrefix,
    /// The bytes of the current blob are awaited.
    AwaitingFrame,
    /// A plaintext is being written to the output file.
    Writing,
    /// The output file is being hashed.
    Hashing,
    /// The file is received and verified.
    Done,
    /// The download has failed.
    Failed,
}

/// What has happened since the last action of a download.
#[derive(Debug)]
pub enum DownloadEvent {
    /// The download is to begin.
    Start,
    /// The output file is created.
    Opened,
    /// The bytes that were to be read are read.
    Read(Vec<u8>),
    /// The connection has ended before the bytes were read; the text says
    /// how.
    ReadFailed(String),
    /// The plaintext is written.
    Written,
    /// The output file is flushed and hashed; this is its hash.
    Hashed(String),
    /// Something else has failed: creating, writing or hashing the file.
    Failed(IoFailure, String),
}

/// What is to be done next in a download.
#[derive(Debug)]
pub enum DownloadAction {
    /// Create the output file under this name in the download directory.
    Open(String),
    /// Read exactly this many bytes from the socket.
    ReadExact(usize),
    /// Append this plaintext to the output file and show the progress.
    Write(Vec<u8>),
    /// Flush the output file and hash what it holds.
    Hash,
    /// Send this signal to the sender and flush: the file is received.
    Finish(Vec<u8>),
    /// Give up: delete the output file where `cleanup` says so, send the
    /// signal to the sender where there is one, and report the error.
    Abort { cleanup: bool, signal: Option<Vec<u8>>, error: Error },
}

/// The receiving side of a transfer whose session is accepted.
pub struct Download {
    phase: DownloadPhase,
    key: [u8; 32],
    filename: String,
    file_size: u64,
    received: u64,
    frame_len: u32,
    expected_hash: String,
}

/// Whether the output file exists in a phase, so that giving up must delete
/// it.
pub open spec fn spec_has_file(phase: DownloadPhase) -> bool {
    match phase {
        DownloadPhase::AwaitingPrefix => true,
        DownloadPhase::AwaitingFrame => true,
        DownloadPhase::Writing => true,
        DownloadPhase::Hashing => true,
        _ => false,
    }
}

/// The text of the error for a connection that ended before a length prefix.
pub open spec fn spec_interrupted_prefix_message(cause: Seq<char>) -> Seq<char> {
    "Transfer interrupted - connection closed before size prefix: "@ + cause
}

/// The text of the error for a connection that ended inside a blob.
pub open spec fn spec_interrupted_chunk_message(cause: Seq<char>) -> Seq<char> {
    "Transfer interrupted - connection closed during chunk: "@ + cause
}

/// The class under which an I/O failure is reported.
pub open spec fn spec_io_kind(failure: IoFailure) -> ErrorKind {
    match failure {
        IoFailure::NotFound => ErrorKind::FileError,
        IoFailure::PermissionDenied => ErrorKind::FileError,
        IoFailure::Other => ErrorKind::NetworkError,
    }
}

impl Download {
    /// How far the download has come.
    pub closed spec fn spec_phase(&self) -> DownloadPhase {
        self.phase
    }

    /// The AES-256 key of the session.
    pub closed spec fn spec_key(&self) -> Seq<u8> {
        self.key@
    }

    /// The name of the output file.
    pub closed spec fn spec_filename(&self) -> Seq<char> {
        self.filename@
    }

    /// The size of the file as the sender announced it.
    pub closed spec fn spec_file_size(&self) -> u64 {
        self.file_size
    }

    /// The number of plaintext bytes received so far.
    pub closed spec fn spec_received(&self) -> u64 {
        self.received
    }

    /// The length of the blob that is awaited.
    pub closed spec fn spec_frame_len(&self) -> u32 {
        self.frame_len
    }

    /// The hash of the file as the sender announced it.
    pub closed spec fn spec_expected_hash(&self) -> Seq<char> {
        self.expected_hash@
    }

    /// Whether `after` is `before` but for phase, byte count and blob length.
    pub open spec fn spec_same_transfer(before: Download, after: Download) -> bool {
        &&& after.spec_key() == before.spec_key()
        &&& after.spec_filename() == before.spec_filename()
        &&& after.spec_file_size() == before.spec_file_size()
        &&& after.spec_expected_hash() == before.spec_expected_hash()
    }

    /// Whether the download gives up as said: it has failed, the output file
    /// is deleted where it exists, and error and signal are the given ones.
    pub open spec fn spec_gives_up(
        before: Download,
        after: Download,
        action: DownloadAction,
        refusal: Refusal,
    ) -> bool {
        &&& after.spec_phase() == DownloadPhase::Failed
        &&& action matches DownloadAction::Abort { cleanup, signal, error }
        &&& cleanup == spec_has_file(before.spec_phase())
        &&& error.is(refusal.kind, refusal.message)
        &&& match signal {
            Some(bytes) => refusal.signal == Some(bytes@),
            None => refusal.signal is None,
        }
    }

    /// Whether the download goes on as said.
    pub open spec fn spec_goes_on(
        before: Download,
        after: Download,
        phase: DownloadPhase,
        received: int,
    ) -> bool {
        &&& after.spec_phase() == phase
        &&& after.spec_received() == received
    }

    /// What follows an event in a phase.
    ///
    /// After the output file is created, and after every write, the next
    /// length prefix is read as long as the bytes received are not the
    /// announced size; then the file is hashed. A blob is decrypted as a
    /// whole; the first one that the cipher rejects ends the download. A
    /// connection that ends early, a rejected blob and a hash that differs
    /// all delete the output file. Only a hash that equals the announced one
    /// completes the download.
    pub open spec fn spec_follows(
        before: Download,
        event: DownloadEvent,
        after: Download,
        action: DownloadAction,
    ) -> bool {
        let received = before.spec_received() as int;
        &&& Self::spec_same_transfer(before, after)
        &&& match (before.spec_phase(), event) {
            (DownloadPhase::Idle, DownloadEvent::Start) => {
                &&& Self::spec_goes_on(before, after, DownloadPhase::Opening, received)
                &&& action matches DownloadAction::Open(name)
                &&& name@ == before.spec_filename()
            },
            (DownloadPhase::Opening, DownloadEvent::Opened) => {
                if before.spec_file_size() == received {
                    &&& Self::spec_goes_on(before, after, DownloadPhase::Hashing, received)
                    &&& action is Hash
                } else {
                    &&& Self::spec_goes_on(before, after, DownloadPhase::AwaitingPrefix, received)
                    &&& action matches DownloadAction::ReadExact(len)
                    &&& len == FRAME_PREFIX_LEN
                }
            },
            (DownloadPhase::AwaitingPrefix, DownloadEvent::Read(bytes)) => {
                if bytes@.len() == FRAME_PREFIX_LEN {
                    &&& Self::spec_goes_on(before, after, DownloadPhase::AwaitingFrame, received)
                    &&& after.spec_frame_len() == spec_from_be32(bytes@)
                    &&& action matches DownloadAction::ReadExact(len)
                    &&& len == spec_from_be32(bytes@)
                } else {
                    Self::spec_gives_up(before, after, action, spec_out_of_order())
                }
            },
            (DownloadPhase::AwaitingPrefix, DownloadEvent::ReadFailed(cause)) => {
                Self::spec_gives_up(
                    before,
                    after,
                    action,
                    Refusal {
                        kind: ErrorKind::InvalidInput,
                        message: spec_interrupted_prefix_message(cause@),
                        signal: None,
                    },
                )
            },
            (DownloadPhase::AwaitingFrame, DownloadEvent::Read(bytes)) => {
                if bytes@.len() != before.spec_frame_len() {
                    Self::spec_gives_up(before, after, action, spec_out_of_order())
                } else {
                    match spec_decrypt_chunk(before.spec_key(), bytes@) {
                        Some(plaintext) => {
                            if received + plaintext.len() <= u64::MAX {
                                &&& Self::spec_goes_on(
                                    before,
                                    after,
                                    DownloadPhase::Writing,
                                    received + plaintext.len(),
                                )
                                &&& action matches DownloadAction::Write(written)
                                &&& written@ == plaintext
                            } else {
                                Self::spec_gives_up(
                                    before,
                                    after,
                                    action,
                                    Refusal {
                                        kind: ErrorKind::InvalidInput,
                                        message: spec_overflow_message(),
                                        signal: None,
                                    },
                                )
                            }
                        },
                        None => Self::spec_gives_up(
                            before,
                            after,
                            action,
                            Refusal {
                                kind: ErrorKind::CryptoError,
                                message: if bytes@.len() < AEAD_OVERHEAD {
                                    spec_too_short_message(bytes@.len())
                                } else {
                                    spec_decryption_failed_message()
                                },
                                signal: None,
                            },
                        ),
                    }
                }
            },
            (DownloadPhase::AwaitingFrame, DownloadEvent::ReadFailed(cause)) => {
                Self::spec_gives_up(
                    before,
                    after,
                    action,
                    Refusal {
                        kind: ErrorKind::InvalidInput,
                        message: spec_interrupted_chunk_message(cause@),
                        signal: None,
                    },
                )
            },
            (DownloadPhase::Writing, DownloadEvent::Written) => {
                if before.spec_file_size() == received {
                    &&& Self::spec_goes_on(before, after, DownloadPhase::Hashing, received)
                    &&& action is Hash
                } else {
                    &&& Self::spec_goes_on(before, after, DownloadPhase::AwaitingPrefix, received)
                    &&& action matches DownloadAction::ReadExact(len)
                    &&& len == FRAME_PREFIX_LEN
                }
            },
            (DownloadPhase::Hashing, DownloadEvent::Hashed(hash)) => {
                if hash@ == before.spec_expected_hash() {
                    &&& Self::spec_goes_on(before, after, DownloadPhase::Done, received)
                    &&& action matches DownloadAction::Finish(signal)
                    &&& signal@ == spec_done_signal()
                } else {
                    Self::spec_gives_up(
                        before,
                        after,
                        action,
                        Refusal {
                            kind: ErrorKind::InvalidInput,
                            message: "File integrity check failed"@,
                            signal: Some(spec_hash_mismatch_signal()),
                        },
                    )
                }
            },
            (_, DownloadEvent::Failed(failure, cause)) => {
                Self::spec_gives_up(
                    before,
                    after,
                    action,
                    Refusal { kind: spec_io_kind(failure), message: cause@, signal: None },
                )
            },
            (_, _) => Self::spec_gives_up(before, after, action, spec_out_of_order()),
        }
    }

    /// How far the download has come.
    pub fn phase(&self) -> (phase: DownloadPhase)
        ensures
            phase == self.spec_phase(),
    {
        self.phase
    }

    /// The name of the output file.
    pub fn filename(&self) -> (name: &str)
        ensures
            name@ == self.spec_filename(),
    {
        self.filename.as_str()
    }

    /// The size of the file as the sender announced it.
    pub fn file_size(&self) -> (size: u64)
        ensures
            size == self.spec_file_size(),
    {
        self.file_size
    }

    /// The number of plaintext bytes received so far.
    pub fn received(&self) -> (count: u64)
        ensures
            count == self.spec_received(),
    {
        self.received
    }

    /// Gives up.
    fn give_up(&mut self, error: Error, signal: Option<Vec<u8>>) -> (action: DownloadAction)
        ensures
            Self::spec_same_transfer(*old(self), *final(self)),
            Self::spec_gives_up(
                *old(self),
                *final(self),
                action,
                Refusal {
                    kind: error.spec_kind(),
                    message: error.spec_message(),
                    signal: match signal {
                        Some(bytes) => Some(bytes@),
                        None => None,
                    },
                },
            ),
    {
        let cleanup: bool = match self.phase {
            DownloadPhase::AwaitingPrefix => true,
            DownloadPhase::AwaitingFrame => true,
            DownloadPhase::Writing => true,
            DownloadPhase::Hashing => true,
            _ => false,
        };
        self.phase = DownloadPhase::Failed;
        DownloadAction::Abort { cleanup, signal, error }
    }

    /// Gives up over an event that the phase does not await.
    fn out_of_order(&mut self) -> (action: DownloadAction)
        ensures
            Self::spec_same_transfer(*old(self), *final(self)),
            Self::spec_gives_up(*old(self), *final(self), action, spec_out_of_order()),
    {
        self.give_up(out_of_order_error(), None)
    }

    /// Reads on, or hashes the file where all announced bytes are there.
    fn read_on(&mut self) -> (action: DownloadAction)
        requires
            old(self).spec_phase() == DownloadPhase::Opening || old(self).spec_phase()
                == DownloadPhase::Writing,
        ensures
            Self::spec_same_transfer(*old(self), *final(self)),
            final(self).spec_received() == old(self).spec_received(),
            if old(self).spec_file_size() == old(self).spec_received() {
                final(self).spec_phase() == DownloadPhase::Hashing && action is Hash
            } else {
                &&& final(self).spec_phase() == DownloadPhase::AwaitingPrefix
                &&& action matches DownloadAction::ReadExact(len)
                &&& len == FRAME_PREFIX_LEN
            },
    {
        if self.received == self.file_size {
            self.phase = DownloadPhase::Hashing;
            DownloadAction::Hash
        } else {
            self.phase = DownloadPhase::AwaitingPrefix;
            DownloadAction::ReadExact(FRAME_PREFIX_LEN)
        }
    }

    /// Takes the download one step further: from what has happened to what
    /// is to be done next.
    pub fn step(&mut self, event: DownloadEvent) -> (action: DownloadAction)
        ensures
            Self::spec_follows(*old(self), event, *final(self), action),
    {
        match event {
            DownloadEvent::Start => {
                if self.phase == DownloadPhase::Idle {
                    self.phase = DownloadPhase::Opening;
                    DownloadAction::Open(self.filename.clone())
                } else {
                    self.out_of_order()
                }
            },
            DownloadEvent::Opened => {
                if self.phase == DownloadPhase::Opening {
                    self.read_on()
                } else {
                    self.out_of_order()
                }
            },
            DownloadEvent::Read(bytes) => {
                if self.phase == DownloadPhase::AwaitingPrefix {
                    if bytes.len() == FRAME_PREFIX_LEN {
                        let prefix: [u8; 4] = to_array::<4>(bytes.as_slice());
                        let len: u32 = decode_length(&prefix);
                        self.frame_len = len;
                        self.phase = DownloadPhase::AwaitingFrame;
                        DownloadAction::ReadExact(len as usize)
                    } else {
                        self.out_of_order()
                    }
                } else if self.phase == DownloadPhase::AwaitingFrame {
                    if bytes.len() != self.frame_len as usize {
                        self.out_of_order()
                    } else {
                        match decrypt_chunk(&self.key, bytes.as_slice()) {
                            Ok(plaintext) => {
                                match self.received.checked_add(plaintext.len() as u64) {
                                    Some(received) => {
                                        self.received = received;
                                        self.phase = DownloadPhase::Writing;
                                        DownloadAction::Write(plaintext)
                                    },
                                    None => self.give_up(overflow_error(), None),
                                }
                            },
                            Err(e) => self.give_up(e, None),
                        }
                    }
                } else {
                    self.out_of_order()
                }
            },
            DownloadEvent::ReadFailed(cause) => {
                if self.phase == DownloadPhase::AwaitingPrefix {
                    self.give_up(
                        Error::InvalidInput(
                            String::from_str(
                                "Transfer interrupted - connection closed before size prefix: ",
                            ).concat(cause.as_str()),
                        ),
                        None,
                    )
                } else if self.phase == DownloadPhase::AwaitingFrame {
                    self.give_up(
                        Error::InvalidInput(
                            String::from_str(
                                "Transfer interrupted - connection closed during chunk: ",
                            ).concat(cause.as_str()),
                        ),
                        None,
                    )
                } else {
                    self.out_of_order()
                }
            },
            DownloadEvent::Written => {
                if self.phase == DownloadPhase::Writing {
                    self.read_on()
                } else {
                    self.out_of_order()
                }
            },
            DownloadEvent::Hashed(hash) => {
                if self.phase == DownloadPhase::Hashing {
                    if hash == self.expected_hash {
                        self.phase = DownloadPhase::Done;
                        DownloadAction::Finish(done_signal())
                    } else {
                        self.give_up(
                            Error::InvalidInput(String::from_str("File integrity check failed")),
                            Some(hash_mismatch_signal()),
                        )
                    }
                } else {
                    self.out_of_order()
                }
            },
            DownloadEvent::Failed(failure, cause) => {
                self.give_up(Error::from_io(failure, cause), None)
            },
        }
    }
}

/// The refusal for an event that a phase does not await.
pub open spec fn spec_out_of_order() -> Refusal {
    Refusal { kind: ErrorKind::SessionError, message: spec_out_of_order_message(), signal: None }
}

/// Whether an event is the hash of the written file, and the hash is the one
/// that the sender announced.
pub open spec fn spec_hash_confirmed(before: Download, event: DownloadEvent) -> bool {
    &&& before.spec_phase() == DownloadPhase::Hashing
    &&& match event {
        DownloadEvent::Hashed(hash) => hash@ == before.spec_expected_hash(),
        _ => false,
    }
}

/// Whether an event is the hash of the written file, and the hash is not the
/// one that the sender announced.
pub open spec fn spec_hash_refuted(before: Download, event: DownloadEvent) -> bool {
    &&& before.spec_phase() == DownloadPhase::Hashing
    &&& match event {
        DownloadEvent::Hashed(hash) => hash@ != before.spec_expected_hash(),
        _ => false,
    }
}

/// Whether an action deletes the output file, signals the mismatch of the
/// hash to the sender and fails the transfer.
pub open spec fn spec_discards_file(action: DownloadAction) -> bool {
    match action {
        DownloadAction::Abort { cleanup, signal, error } => {
            &&& cleanup
            &&& match signal {
                Some(bytes) => bytes@ == spec_hash_mismatch_signal(),
                None => false,
            }
            &&& error.is(ErrorKind::InvalidInput, "File integrity check failed"@)
        },
        _ => false,
    }
}

/// Whether an event is a blob that the cipher opens, under the key of the
/// session, to the plaintext that the action hands out for writing.
pub open spec fn spec_writes_decrypted(
    before: Download,
    event: DownloadEvent,
    action: DownloadAction,
) -> bool {
    &&& before.spec_phase() == DownloadPhase::AwaitingFrame
    &&& match (event, action) {
        (DownloadEvent::Read(bytes), DownloadAction::Write(plaintext)) => spec_decrypt_chunk(
            before.spec_key(),
            bytes@,
        ) == Some(plaintext@),
        _ => false,
    }
}

/// Integrity dominates: whatever has happened before, a download completes
/// only on the hash of the written file, and only where that hash is the one
/// that the sender announced. Any other hash deletes the file, signals the
/// mismatch to the sender and fails the transfer.
pub proof fn lemma_integrity_dominates(
    before: Download,
    event: DownloadEvent,
    after: Download,
    action: DownloadAction,
)
    requires
        Download::spec_follows(before, event, after, action),
    ensures
        (action is Finish || after.spec_phase() == DownloadPhase::Done) ==> spec_hash_confirmed(
            before,
            event,
        ),
        spec_hash_refuted(before, event) ==> spec_discards_file(action) && after.spec_phase()
            == DownloadPhase::Failed,
{
}

/// Nothing is written after a failure: a plaintext is handed out for writing
/// only for a blob that the cipher accepts under the key of the session, and
/// a failed download stays failed.
pub proof fn lemma_no_write_after_failure(
    before: Download,
    event: DownloadEvent,
    after: Download,
    action: DownloadAction,
)
    requires
        Download::spec_follows(before, event, after, action),
    ensures
        action is Write ==> spec_writes_decrypted(before, event, action),
        before.spec_phase() == DownloadPhase::Failed ==> after.spec_phase()
            == DownloadPhase::Failed && action is Abort,
{
}

/// A blob is read as a whole: after a length prefix exactly that many bytes
/// are asked for, and nothing but a blob of that length is decrypted.
pub proof fn lemma_frames_are_read_whole(
    before: Download,
    event: DownloadEvent,
    after: Download,
    action: DownloadAction,
)
    requires
        Download::spec_follows(before, event, after, action),
    ensures
        after.spec_phase() == DownloadPhase::AwaitingFrame ==> spec_asks_for(
            action,
            after.spec_frame_len() as int,
        ),
        action is Write ==> spec_is_read_of(event, before.spec_frame_len() as int),
{
}

/// Whether an action asks for exactly `len` bytes from the socket.
pub open spec fn spec_asks_for(action: DownloadAction, len: int) -> bool {
    match action {
        DownloadAction::ReadExact(asked) => asked == len,
        _ => false,
    }
}

/// Whether an event is the arrival of exactly `len` bytes.
pub open spec fn spec_is_read_of(event: DownloadEvent, len: int) -> bool {
    match event {
        DownloadEvent::Read(bytes) => bytes@.len() == len,
        _ => false,
    }
}

/// Whether an action gives up and deletes the output file.
pub open spec fn spec_aborts_with_cleanup(action: DownloadAction) -> bool {
    match action {
        DownloadAction::Abort { cleanup, .. } => cleanup,
        _ => false,
    }
}

/// A partial file never stays: whenever a download fails after its output
/// file was created, the file is deleted; and before that there is nothing to
/// delete.
pub proof fn lemma_failure_removes_partial_file(
    before: Download,
    event: DownloadEvent,
    after: Download,
    action: DownloadAction,
)
    requires
        Download::spec_follows(before, event, after, action),
    ensures
        action is Abort ==> (spec_aborts_with_cleanup(action) <==> spec_has_file(
            before.spec_phase(),
        )),
        after.spec_phase() == DownloadPhase::Failed ==> action is Abort,
        action is Abort ==> after.spec_phase() == DownloadPhase::Failed,
{
}

} // verus!
