use crate::config::constants::{done_signal, spec_done_signal, AEAD_OVERHEAD, FILE_CHUNK_SIZE};
use crate::crypto::key_exchange::{
    perform_key_exchange, spec_parse_public_key, spec_session_key, EphemeralKeyPair,
};
use crate::crypto::signing::{
    sign_data, spec_ed25519_public_key, spec_ed25519_sign, Signature, SigningKey,
};
use crate::server::relay::{ServeRequest, TransferSession};
use crate::transfer::envelope::{metadata_envelope, spec_signed_bytes};
use crate::transfer::framing::{
    encode_frame, out_of_order_error, overflow_error, spec_chunk_too_large_message,
    spec_is_frame_of, spec_out_of_order_message, spec_overflow_message,
};
use crate::utils::encoding::{same_bytes, spec_hex_encode};
use crate::utils::error::{Error, ErrorKind, IoFailure, Result};
use vstd::prelude::*;
use vstd::string::StringExecFns;

verus! {

/// The text of the error for a recipient that is not known.
pub open spec fn spec_unknown_recipient_message(name: Seq<char>) -> Seq<char> {
    "Contact '"@ + name + "' not found"@
}

/// The signature over the metadata of a file, as hexadecimal text.
pub open spec fn spec_metadata_signature(
    secret: Seq<u8>,
    filename: Seq<char>,
    file_size: nat,
    file_hash: Seq<char>,
) -> Seq<char> {
    spec_hex_encode(spec_ed25519_sign(secret, spec_signed_bytes(filename, file_size, file_hash)))
}

/// The sending side before the session is open: the signed announcement of
/// the file, and the ephemeral key pair of the transfer.
pub struct Sender {
    sender_fingerprint: String,
    recipient: String,
    filename: String,
    file_size: u64,
    file_hash: String,
    signature: String,
    pair: EphemeralKeyPair,
}

impl Sender {
    /// The fingerprint of the sender.
    pub closed spec fn spec_sender_fingerprint(&self) -> Seq<char> {
        self.sender_fingerprint@
    }

    /// The fingerprint of the recipient.
    pub closed spec fn spec_recipient(&self) -> Seq<char> {
        self.recipient@
    }

    /// The name of the file.
    pub closed spec fn spec_filename(&self) -> Seq<char> {
        self.filename@
    }

    /// The size of the file.
    pub closed spec fn spec_file_size(&self) -> u64 {
        self.file_size
    }

    /// The hash of the file.
    pub closed spec fn spec_file_hash(&self) -> Seq<char> {
        self.file_hash@
    }

    /// The signature over the metadata, as hexadecimal text.
    pub closed spec fn spec_signature(&self) -> Seq<char> {
        self.signature@
    }

    /// The secret of the ephemeral key pair.
    pub closed spec fn spec_secret(&self) -> Seq<u8> {
        self.pair.secret@
    }

    /// The public key of the ephemeral key pair.
    pub closed spec fn spec_public(&self) -> Seq<u8> {
        self.pair.public@
    }

    /// Whether the ephemeral public key belongs to the secret.
    pub closed spec fn wf(&self) -> bool {
        self.pair.wf()
    }

    /// Prepares to send a file to the contact called `to`, whose fingerprint
    /// the list of contacts gives as `contact`, with the given ephemeral key
    /// pair: signs the metadata envelope with the identity key. A contact
    /// that is not known is refused.
    pub fn with_key_pair(
        signing_key: &SigningKey,
        contact: Option<String>,
        to: &str,
        filename: &str,
        file_size: u64,
        file_hash: &str,
        pair: EphemeralKeyPair,
    ) -> (result: Result<Sender>)
        ensures
            match result {
                Ok(sender) => {
                    &&& contact matches Some(fingerprint)
                    &&& sender.spec_recipient() == fingerprint@
                    &&& sender.spec_sender_fingerprint() == spec_hex_encode(
                        spec_ed25519_public_key(signing_key@),
                    )
                    &&& sender.spec_filename() == filename@
                    &&& sender.spec_file_size() == file_size
                    &&& sender.spec_file_hash() == file_hash@
                    &&& sender.spec_signature() == spec_metadata_signature(
                        signing_key@,
                        filename@,
                        file_size as nat,
                        file_hash@,
                    )
                    &&& sender.spec_secret() == pair.secret@
                    &&& sender.spec_public() == pair.public@
                    &&& sender.wf() == pair.wf()
                },
                Err(e) => contact is None && e.is(
                    ErrorKind::InvalidInput,
                    spec_unknown_recipient_message(to@),
                ),
            },
    {
        let recipient: String = match contact {
            Some(fingerprint) => fingerprint,
            None => {
                return Err(
                    Error::InvalidInput(
                        String::from_str("Contact '").concat(to).concat("' not found"),
                    ),
                );
            },
        };
        let envelope: String = metadata_envelope(filename, file_size, file_hash);
        let signature: Signature = match sign_data(signing_key, envelope.as_str()) {
            Ok(signature) => signature,
            Err(e) => {
                proof {
                    assert(false);
                }
                return Err(e);
            },
        };
        Ok(
            Sender {
                sender_fingerprint: signing_key.verifying_key().fingerprint(),
                recipient,
                filename: String::from_str(filename),
                file_size,
                file_hash: String::from_str(file_hash),
                signature: signature.to_hex(),
                pair,
            },
        )
    }

    /// Prepares to send a file to the contact called `to`, whose fingerprint
    /// the list of contacts gives as `contact`: signs the metadata envelope
    /// with the identity key and generates the ephemeral key pair of the
    /// transfer. A contact that is not known is refused.
    pub fn new(
        signing_key: &SigningKey,
        contact: Option<String>,
        to: &str,
        filename: &str,
        file_size: u64,
        file_hash: &str,
    ) -> (result: Result<Sender>)
        ensures
            match result {
                Ok(sender) => {
                    &&& contact matches Some(fingerprint)
                    &&& sender.spec_recipient() == fingerprint@
                    &&& sender.spec_sender_fingerprint() == spec_hex_encode(
                        spec_ed25519_public_key(signing_key@),
                    )
                    &&& sender.spec_filename() == filename@
                    &&& sender.spec_file_size() == file_size
                    &&& sender.spec_file_hash() == file_hash@
                    &&& sender.spec_signature() == spec_metadata_signature(
                        signing_key@,
                        filename@,
                        file_size as nat,
                        file_hash@,
                    )
                    &&& sender.wf()
                },
                Err(e) => contact is None && e.is(
                    ErrorKind::InvalidInput,
                    spec_unknown_recipient_message(to@),
                ),
            },
    {
        Self::with_key_pair(
            signing_key,
            contact,
            to,
            filename,
            file_size,
            file_hash,
            EphemeralKeyPair::generate(),
        )
    }

    /// The request that announces the file to the relay.
    pub fn request(&self) -> (request: ServeRequest)
        ensures
            request.sender_fingerprint@ == self.spec_sender_fingerprint(),
            request.receiver_fingerprint@ == self.spec_recipient(),
            request.filename@ == self.spec_filename(),
            request.file_size == self.spec_file_size(),
            request.signature@ == self.spec_signature(),
            request.file_hash@ == self.spec_file_hash(),
            request.sender_ephemeral_key@ == spec_hex_encode(self.spec_public()),
    {
        ServeRequest {
            sender_fingerprint: self.sender_fingerprint.clone(),
            receiver_fingerprint: self.recipient.clone(),
            filename: self.filename.clone(),
            file_size: self.file_size,
            signature: self.signature.clone(),
            file_hash: self.file_hash.clone(),
            sender_ephemeral_key: self.pair.public_key_hex(),
        }
    }

    /// Derives the key of the session once the relay has paired the peers
    /// and reports the receiver's ephemeral key.
    pub fn open(self, session: &TransferSession) -> (result: Result<Upload>)
        ensures
            match result {
                Ok(upload) => {
                    &&& session.receiver_ephemeral_key matches Some(key)
                    &&& spec_parse_public_key(key@) matches Ok(public)
                    &&& upload.spec_key() == spec_session_key(
                        self.spec_secret(),
                        public,
                        session.session_id@,
                    )
                    &&& upload.spec_phase() == UploadPhase::Idle
                    &&& upload.spec_file_size() == self.spec_file_size()
                    &&& upload.spec_sent() == 0
                },
                Err(e) => match session.receiver_ephemeral_key {
                    None => e.is(ErrorKind::SessionError, "Receiver key not found"@),
                    Some(key) => e.spec_kind() == ErrorKind::CryptoError && spec_parse_public_key(
                        key@,
                    ) == Err::<Seq<u8>, Seq<char>>(e.spec_message()),
                },
            },
    {
        let receiver_ephemeral: &String = match &session.receiver_ephemeral_key {
            Some(key) => key,
            None => {
                return Err(Error::SessionError(String::from_str("Receiver key not found")));
            },
        };
        let key: [u8; 32] = perform_key_exchange(
            self.pair.secret,
            receiver_ephemeral.as_str(),
            session.session_id.as_str(),
        )?;
        Ok(Upload { phase: UploadPhase::Idle, key, file_size: self.file_size, sent: 0 })
    }
}

/// How far an upload has come.
#[derive(Debug, Clone, Copy, PartialEq, Eq, Structural)]
pub enum UploadPhase {
    /// The session is open; nothing has been done yet.
    Idle,
    /// The next chunk of the file is being read.
    Reading,
    /// A frame is being written to the socket.
    Sending,
    /// The socket is being flushed after the last frame.
    Flushing,
    /// The receiver's confirmation is awaited.
    AwaitingAck,
    /// The file is delivered.
    Done,
    /// The upload has failed.
    Failed,
}

/// What has happened since the last action of an upload.
#[derive(Debug)]
pub enum UploadEvent {
    /// The upload is to begin.
    Start,
    /// These bytes were read from the file; none at its end.
    FileRead(Vec<u8>),
    /// The frame is written.
    Sent,
    /// The socket is flushed.
    Flushed,
    /// These bytes came from the receiver.
    Ack(Vec<u8>),
    /// Nothing could be read from the receiver.
    AckFailed,
    /// Reading the file or writing to the socket has failed.
    Failed(IoFailure, String),
}

/// What is to be done next in an upload.
#[derive(Debug)]
pub enum UploadAction {
    /// Read this many bytes from the file; fewer only where the file ends
    /// before, and none at its end.
    ReadFile(usize),
    /// Write all of these bytes to the socket and show the progress.
    Send(Vec<u8>),
    /// Flush the socket.
    Flush,
    /// Read up to this many bytes from the socket, once.
    ReadAck(usize),
    /// The file is delivered; `confirmed` says whether the receiver has
    /// confirmed it. A missing confirmation is a warning, not a failure.
    Finish { confirmed: bool },
    /// Give up and report the error.
    Abort(Error),
}

/// The sending side of a transfer whose session is open.
pub struct Upload {
    phase: UploadPhase,
    key: [u8; 32],
    file_size: u64,
    sent: u64,
}

impl Upload {
    /// How far the upload has come.
    pub closed spec fn spec_phase(&self) -> UploadPhase {
        self.phase
    }

    /// The AES-256 key of the session.
    pub closed spec fn spec_key(&self) -> Seq<u8> {
        self.key@
    }

    /// The size of the file as it was announced.
    pub closed spec fn spec_file_size(&self) -> u64 {
        self.file_size
    }

    /// The number of plaintext bytes handed to the socket so far.
    pub closed spec fn spec_sent(&self) -> u64 {
        self.sent
    }

    /// Whether the upload gives up with the given error.
    pub open spec fn spec_gives_up(
        after: Upload,
        action: UploadAction,
        kind: ErrorKind,
        message: Seq<char>,
    ) -> bool {
        &&& after.spec_phase() == UploadPhase::Failed
        &&& action matches UploadAction::Abort(error)
        &&& error.is(kind, message)
    }

    /// What follows an event in a phase.
    ///
    /// Chunks are read and sent in turn: the next chunk is read only after
    /// the frame of the previous one is written. Every chunk is encrypted
    /// under the key of the session and framed. The end of the file is
    /// followed by a flush and one read of the receiver's confirmation;
    /// whatever comes, the file counts as delivered.
    pub open spec fn spec_follows(
        before: Upload,
        event: UploadEvent,
        after: Upload,
        action: UploadAction,
    ) -> bool {
        let sent = before.spec_sent() as int;
        &&& after.spec_key() == before.spec_key()
        &&& after.spec_file_size() == before.spec_file_size()
        &&& match (before.spec_phase(), event) {
            (UploadPhase::Idle, UploadEvent::Start) => {
                &&& after.spec_phase() == UploadPhase::Reading
                &&& after.spec_sent() == sent
                &&& action matches UploadAction::ReadFile(len)
                &&& len == FILE_CHUNK_SIZE
            },
            (UploadPhase::Reading, UploadEvent::FileRead(chunk)) => {
                if chunk@.len() == 0 {
                    &&& after.spec_phase() == UploadPhase::Flushing
                    &&& after.spec_sent() == sent
                    &&& action is Flush
                } else if chunk@.len() + AEAD_OVERHEAD >= 0x1_0000_0000 {
                    Self::spec_gives_up(
                        after,
                        action,
                        ErrorKind::InvalidInput,
                        spec_chunk_too_large_message(),
                    )
                } else if sent + chunk@.len() > u64::MAX {
                    Self::spec_gives_up(
                        after,
                        action,
                        ErrorKind::InvalidInput,
                        spec_overflow_message(),
                    )
                } else {
                    &&& after.spec_phase() == UploadPhase::Sending
                    &&& after.spec_sent() == sent + chunk@.len()
                    &&& action matches UploadAction::Send(frame)
                    &&& spec_is_frame_of(before.spec_key(), chunk@, frame@)
                }
            },
            (UploadPhase::Sending, UploadEvent::Sent) => {
                &&& after.spec_phase() == UploadPhase::Reading
                &&& after.spec_sent() == sent
                &&& action matches UploadAction::ReadFile(len)
                &&& len == FILE_CHUNK_SIZE
            },
            (UploadPhase::Flushing, UploadEvent::Flushed) => {
                &&& after.spec_phase() == UploadPhase::AwaitingAck
                &&& after.spec_sent() == sent
                &&& action matches UploadAction::ReadAck(len)
                &&& len == 10
            },
            (UploadPhase::AwaitingAck, UploadEvent::Ack(bytes)) => {
                &&& after.spec_phase() == UploadPhase::Done
                &&& after.spec_sent() == sent
                &&& action matches UploadAction::Finish { confirmed }
                &&& confirmed == (bytes@ == spec_done_signal())
            },
            (UploadPhase::AwaitingAck, UploadEvent::AckFailed) => {
                &&& after.spec_phase() == UploadPhase::Done
                &&& after.spec_sent() == sent
                &&& action matches UploadAction::Finish { confirmed }
                &&& !confirmed
            },
            (_, UploadEvent::Failed(failure, cause)) => {
                Self::spec_gives_up(
                    after,
                    action,
                    match failure {
                        IoFailure::NotFound => ErrorKind::FileError,
                        IoFailure::PermissionDenied => ErrorKind::FileError,
                        IoFailure::Other => ErrorKind::NetworkError,
                    },
                    cause@,
                )
            },
            (_, _) => Self::spec_gives_up(
                after,
                action,
                ErrorKind::SessionError,
                spec_out_of_order_message(),
            ),
        }
    }

    /// How far the upload has come.
    pub fn phase(&self) -> (phase: UploadPhase)
        ensures
            phase == self.spec_phase(),
    {
        self.phase
    }

    /// The size of the file as it was announced.
    pub fn file_size(&self) -> (size: u64)
        ensures
            size == self.spec_file_size(),
    {
        self.file_size
    }

    /// The number of plaintext bytes handed to the socket so far.
    pub fn sent(&self) -> (count: u64)
        ensures
            count == self.spec_sent(),
    {
        self.sent
    }

    /// Gives up.
    fn give_up(&mut self, error: Error) -> (action: UploadAction)
        ensures
            final(self).spec_key() == old(self).spec_key(),
            final(self).spec_file_size() == old(self).spec_file_size(),
            Self::spec_gives_up(*final(self), action, error.spec_kind(), error.spec_message()),
    {
        self.phase = UploadPhase::Failed;
        UploadAction::Abort(error)
    }

    /// Gives up over an event that the phase does not await.
    fn out_of_order(&mut self) -> (action: UploadAction)
        ensures
            final(self).spec_key() == old(self).spec_key(),
            final(self).spec_file_size() == old(self).spec_file_size(),
            Self::spec_gives_up(
                *final(self),
                action,
                ErrorKind::SessionError,
                spec_out_of_order_message(),
            ),
    {
        self.give_up(out_of_order_error())
    }

    /// Takes the upload one step further: from what has happened to what is
    /// to be done next.
    pub fn step(&mut self, event: UploadEvent) -> (action: UploadAction)
        ensures
            Self::spec_follows(*old(self), event, *final(self), action),
    {
        match event {
            UploadEvent::Start => {
                if self.phase == UploadPhase::Idle {
                    self.phase = UploadPhase::Reading;
                    UploadAction::ReadFile(FILE_CHUNK_SIZE)
                } else {
                    self.out_of_order()
                }
            },
            UploadEvent::FileRead(chunk) => {
                if self.phase == UploadPhase::Reading {
                    if chunk.len() == 0 {
                        self.phase = UploadPhase::Flushing;
                        UploadAction::Flush
                    } else {
                        match encode_frame(&self.key, chunk.as_slice()) {
                            Err(e) => self.give_up(e),
                            Ok(frame) => match self.sent.checked_add(chunk.len() as u64) {
                                Some(sent) => {
                                    self.sent = sent;
                                    self.phase = UploadPhase::Sending;
                                    UploadAction::Send(frame)
                                },
                                None => self.give_up(overflow_error()),
                            },
                        }
                    }
                } else {
                    self.out_of_order()
                }
            },
            UploadEvent::Sent => {
                if self.phase == UploadPhase::Sending {
                    self.phase = UploadPhase::Reading;
                    UploadAction::ReadFile(FILE_CHUNK_SIZE)
                } else {
                    self.out_of_order()
                }
            },
            UploadEvent::Flushed => {
                if self.phase == UploadPhase::Flushing {
                    self.phase = UploadPhase::AwaitingAck;
                    UploadAction::ReadAck(10)
                } else {
                    self.out_of_order()
                }
            },
            UploadEvent::Ack(bytes) => {
                if self.phase == UploadPhase::AwaitingAck {
                    self.phase = UploadPhase::Done;
                    let done: Vec<u8> = done_signal();
                    let confirmed: bool = same_bytes(bytes.as_slice(), done.as_slice());
                    UploadAction::Finish { confirmed }
                } else {
                    self.out_of_order()
                }
            },
            UploadEvent::AckFailed => {
                if self.phase == UploadPhase::AwaitingAck {
                    self.phase = UploadPhase::Done;
                    UploadAction::Finish { confirmed: false }
                } else {
                    self.out_of_order()
                }
            },
            UploadEvent::Failed(failure, cause) => self.give_up(Error::from_io(failure, cause)),
        }
    }
}

/// One frame is in flight at a time: a frame is handed out only for a chunk
/// that was just read, and while it is being written nothing but its
/// completion lets the upload go on.
pub proof fn lemma_one_frame_in_flight(
    before: Upload,
    event: UploadEvent,
    after: Upload,
    action: UploadAction,
)
    requires
        Upload::spec_follows(before, event, after, action),
    ensures
        action is Send ==> before.spec_phase() == UploadPhase::Reading && after.spec_phase()
            == UploadPhase::Sending,
        before.spec_phase() == UploadPhase::Sending ==> (if event is Sent {
            action is ReadFile
        } else {
            action is Abort
        }),
{
}

/// A delivered file stays delivered: the upload finishes only after the end
/// of the file, a flush and one read of the confirmation, and whatever was
/// read there, it finishes without an error.
pub proof fn lemma_confirmation_is_not_required(
    before: Upload,
    event: UploadEvent,
    after: Upload,
    action: UploadAction,
)
    requires
        Upload::spec_follows(before, event, after, action),
    ensures
        action is Finish ==> before.spec_phase() == UploadPhase::AwaitingAck,
        before.spec_phase() == UploadPhase::AwaitingAck && (event is Ack || event is AckFailed)
            ==> action is Finish && after.spec_phase() == UploadPhase::Done,
{
}

} // verus!
