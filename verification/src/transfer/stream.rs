use crate::config::constants::{spec_hash_mismatch_signal, AEAD_OVERHEAD, FILE_CHUNK_SIZE};
use crate::crypto::encryption::{
    spec_decrypt_chunk, spec_decryption_failed_message, spec_is_encryption,
    spec_too_short_message,
};
use crate::transfer::framing::{
    lemma_be32_round_trip, spec_be32, spec_chunks, spec_frame, spec_from_be32,
    spec_out_of_order_message, spec_overflow_message, spec_wire,
};
use crate::transfer::receiver::{
    spec_interrupted_chunk_message, spec_interrupted_prefix_message, spec_out_of_order, Download,
    DownloadAction, DownloadEvent, DownloadPhase, Refusal, Rejection,
};
use crate::transfer::sender::{Upload, UploadAction, UploadEvent, UploadPhase};
use crate::utils::error::{ErrorKind, Result};
use crate::utils::hash::{compute_file_hash, spec_file_hash};
use vstd::pervasive::unreached;
use vstd::prelude::*;
use vstd::slice::{slice_subrange, slice_to_vec};
use vstd::string::StringExecFns;

verus! {

/// Why a byte stream does not yield the announced file.
pub enum StreamFailure {
    /// The transfer was not at its beginning.
    OutOfOrder,
    /// The stream ended before a length prefix was complete.
    BeforePrefix,
    /// The stream ended inside a blob.
    InsideChunk,
    /// The cipher rejected a blob of this length.
    Rejected(nat),
    /// More plaintext arrived than can be counted.
    Overflow,
    /// The plaintexts, joined, do not hash to the announced value.
    HashMismatch,
}

/// How the end of a stream shows itself to a reader that wants more.
pub open spec fn spec_end_of_stream() -> Seq<char> {
    "failed to fill whole buffer"@
}

impl StreamFailure {
    /// The error that reports the failure, and the signal for the sender
    /// where one is due.
    pub open spec fn spec_refusal(self) -> Refusal {
        match self {
            StreamFailure::OutOfOrder => spec_out_of_order(),
            StreamFailure::BeforePrefix => Refusal {
                kind: ErrorKind::InvalidInput,
                message: spec_interrupted_prefix_message(spec_end_of_stream()),
                signal: None,
            },
            StreamFailure::InsideChunk => Refusal {
                kind: ErrorKind::InvalidInput,
                message: spec_interrupted_chunk_message(spec_end_of_stream()),
                signal: None,
            },
            StreamFailure::Rejected(len) => Refusal {
                kind: ErrorKind::CryptoError,
                message: if len < AEAD_OVERHEAD {
                    spec_too_short_message(len)
                } else {
                    spec_decryption_failed_message()
                },
                signal: None,
            },
            StreamFailure::Overflow => Refusal {
                kind: ErrorKind::InvalidInput,
                message: spec_overflow_message(),
                signal: None,
            },
            StreamFailure::HashMismatch => Refusal {
                kind: ErrorKind::InvalidInput,
                message: "File integrity check failed"@,
                signal: Some(spec_hash_mismatch_signal()),
            },
        }
    }
}

/// The plaintext that a receiver with `key` takes from a byte stream when
/// `received` bytes of a file of `file_size` bytes are there already: it
/// reads frame after frame until the bytes received are the announced size,
/// and gives up at the first frame that is incomplete or rejected. What
/// follows the last frame that it needs is not read.
pub open spec fn spec_download_stream(
    key: Seq<u8>,
    file_size: nat,
    received: nat,
    wire: Seq<u8>,
) -> std::result::Result<Seq<u8>, StreamFailure>
    decreases wire.len(),
{
    if received == file_size {
        Ok(Seq::empty())
    } else if wire.len() < 4 {
        Err(StreamFailure::BeforePrefix)
    } else {
        let len = spec_from_be32(wire.take(4)) as int;
        if wire.len() - 4 < len {
            Err(StreamFailure::InsideChunk)
        } else {
            match spec_decrypt_chunk(key, wire.subrange(4, 4 + len)) {
                None => Err(StreamFailure::Rejected(len as nat)),
                Some(plaintext) => if received + plaintext.len() > u64::MAX {
                    Err(StreamFailure::Overflow)
                } else {
                    match spec_download_stream(
                        key,
                        file_size,
                        received + plaintext.len(),
                        wire.skip(4 + len),
                    ) {
                        Err(failure) => Err(failure),
                        Ok(rest) => Ok(plaintext + rest),
                    }
                },
            }
        }
    }
}

/// What a download yields from a byte stream: nothing where it is not at its
/// beginning; else the plaintext that the receiver takes from the stream,
/// where it hashes to the announced value.
pub open spec fn spec_stream_outcome(download: Download, wire: Seq<u8>) -> std::result::Result<
    Seq<u8>,
    StreamFailure,
> {
    if download.spec_phase() != DownloadPhase::Idle {
        Err(StreamFailure::OutOfOrder)
    } else {
        match spec_download_stream(
            download.spec_key(),
            download.spec_file_size() as nat,
            download.spec_received() as nat,
            wire,
        ) {
            Err(failure) => Err(failure),
            Ok(file) => if spec_file_hash(file) == download.spec_expected_hash() {
                Ok(file)
            } else {
                Err(StreamFailure::HashMismatch)
            },
        }
    }
}

/// Whether `wire` is what a sender with `key` writes for `data`: the frames
/// of one encryption of every chunk of the file, in order.
pub open spec fn spec_is_stream_of(
    key: Seq<u8>,
    data: Seq<u8>,
    blobs: Seq<Seq<u8>>,
    wire: Seq<u8>,
) -> bool {
    &&& wire == spec_wire(blobs)
    &&& blobs.len() == spec_chunks(data, FILE_CHUNK_SIZE as nat).len()
    &&& forall|i: int|
        0 <= i < blobs.len() ==> spec_is_encryption(
            key,
            #[trigger] spec_chunks(data, FILE_CHUNK_SIZE as nat)[i],
            blobs[i],
        )
}

/// Whether `wire` is what a sender with `key` may write for `data`: the
/// frames of some encryption of every chunk of the file, in order.
pub open spec fn spec_is_sent_stream(key: Seq<u8>, data: Seq<u8>, wire: Seq<u8>) -> bool {
    exists|blobs: Seq<Seq<u8>>| spec_is_stream_of(key, data, blobs, wire)
}

/// The frames of a sequence of blobs and one more are the frames of the
/// sequence, then the frame of the last.
pub proof fn lemma_wire_push(blobs: Seq<Seq<u8>>, blob: Seq<u8>)
    ensures
        spec_wire(blobs.push(blob)) == spec_wire(blobs) + spec_frame(blob),
    decreases blobs.len(),
{
    let all = blobs.push(blob);
    if blobs.len() == 0 {
        assert(all.drop_first() =~= Seq::<Seq<u8>>::empty());
        assert(spec_wire(all.drop_first()) =~= Seq::<u8>::empty());
        assert(spec_wire(all) =~= spec_wire(blobs) + spec_frame(blob));
    } else {
        assert(all.drop_first() =~= blobs.drop_first().push(blob));
        lemma_wire_push(blobs.drop_first(), blob);
        assert(all[0] == blobs[0]);
        assert(spec_wire(all) =~= spec_wire(blobs) + spec_frame(blob));
    }
}

/// The stream of an honest sender yields the file: where every chunk of a
/// file is encrypted under the key of the session and framed, a receiver
/// with the same key that was told the size of the file takes exactly the
/// file from the stream, whatever follows on it.
pub proof fn lemma_stream_yields_file(
    key: Seq<u8>,
    data: Seq<u8>,
    blobs: Seq<Seq<u8>>,
    received: nat,
    rest: Seq<u8>,
)
    requires
        blobs.len() == spec_chunks(data, FILE_CHUNK_SIZE as nat).len(),
        forall|i: int|
            0 <= i < blobs.len() ==> spec_is_encryption(
                key,
                #[trigger] spec_chunks(data, FILE_CHUNK_SIZE as nat)[i],
                blobs[i],
            ),
        received + data.len() <= u64::MAX,
    ensures
        spec_download_stream(key, received + data.len(), received, spec_wire(blobs) + rest)
            == Ok::<Seq<u8>, StreamFailure>(data),
    decreases data.len(),
{
    let size = FILE_CHUNK_SIZE as nat;
    let chunks = spec_chunks(data, size);
    let wire = spec_wire(blobs) + rest;
    if data.len() == 0 {
        assert(data =~= Seq::<u8>::empty());
    } else {
        let chunk = chunks[0];
        let blob = blobs[0];
        assert(spec_is_encryption(key, chunk, blob));
        let tail = if data.len() <= size {
            Seq::<u8>::empty()
        } else {
            data.skip(size as int)
        };
        assert(chunks.drop_first() =~= spec_chunks(tail, size));
        assert(chunk + tail =~= data);
        assert(0 < chunk.len() <= size);
        let len = blob.len() as int;
        lemma_be32_round_trip(blob.len());
        let later = spec_wire(blobs.drop_first()) + rest;
        assert(wire =~= spec_frame(blob) + later);
        assert(wire.take(4) =~= spec_be32(blob.len()));
        assert(wire.subrange(4, 4 + len) =~= blob);
        assert(wire.skip(4 + len) =~= later);
        let more = blobs.drop_first();
        assert forall|i: int| 0 <= i < more.len() implies spec_is_encryption(
            key,
            #[trigger] spec_chunks(tail, size)[i],
            more[i],
        ) by {
            assert(spec_chunks(tail, size)[i] == chunks[i + 1]);
            assert(more[i] == blobs[i + 1]);
        }
        lemma_stream_yields_file(key, tail, more, received + chunk.len(), rest);
        assert(received + chunk.len() + tail.len() == received + data.len());
    }
}

/// An honest transfer delivers the file: a download at its beginning that
/// was told the size and the hash of a file yields the file from what a
/// sender with the same key writes for it.
pub proof fn lemma_honest_transfer_delivers(download: Download, data: Seq<u8>, wire: Seq<u8>)
    requires
        download.spec_phase() == DownloadPhase::Idle,
        download.spec_received() == 0,
        download.spec_file_size() == data.len(),
        download.spec_expected_hash() == spec_file_hash(data),
        spec_is_sent_stream(download.spec_key(), data, wire),
    ensures
        spec_stream_outcome(download, wire) == Ok::<Seq<u8>, StreamFailure>(data),
{
    let key = download.spec_key();
    let blobs = choose|blobs: Seq<Seq<u8>>| spec_is_stream_of(key, data, blobs, wire);
    lemma_stream_yields_file(key, data, blobs, 0, Seq::empty());
    assert(spec_wire(blobs) + Seq::<u8>::empty() =~= wire);
}

/// What a receiver takes from a stream has the announced size: together with
/// the bytes that were there already, the plaintext is as long as the file
/// was said to be.
pub proof fn lemma_stream_has_announced_size(
    key: Seq<u8>,
    file_size: nat,
    received: nat,
    wire: Seq<u8>,
)
    requires
        spec_download_stream(key, file_size, received, wire) is Ok,
    ensures
        received + spec_download_stream(key, file_size, received, wire)->Ok_0.len() == file_size,
    decreases wire.len(),
{
    if received != file_size {
        let len = spec_from_be32(wire.take(4)) as int;
        let plaintext = spec_decrypt_chunk(key, wire.subrange(4, 4 + len))->0;
        lemma_stream_has_announced_size(
            key,
            file_size,
            received + plaintext.len(),
            wire.skip(4 + len),
        );
    }
}

/// A file that comes out of a download hashes to the value that the sender
/// announced and signed, and has the announced size, whatever the stream
/// held.
pub proof fn lemma_received_file_has_announced_hash(
    download: Download,
    wire: Seq<u8>,
    file: Seq<u8>,
)
    requires
        spec_stream_outcome(download, wire) == Ok::<Seq<u8>, StreamFailure>(file),
    ensures
        spec_file_hash(file) == download.spec_expected_hash(),
        download.spec_received() + file.len() == download.spec_file_size(),
{
    lemma_stream_has_announced_size(
        download.spec_key(),
        download.spec_file_size() as nat,
        download.spec_received() as nat,
        wire,
    );
}

/// Runs a download over a byte stream in memory: the output file is a
/// vector, and the stream ends after the bytes of `wire`.
///
/// Returns the file where the stream yields one that hashes to the announced
/// value; else the error, with the signal that the sender is owed.
#[verifier::loop_isolation(false)]
pub fn receive_stream(download: Download, wire: &[u8]) -> (result: std::result::Result<
    Vec<u8>,
    Rejection,
>)
    ensures
        match result {
            Ok(file) => spec_stream_outcome(download, wire@) == Ok::<Seq<u8>, StreamFailure>(
                file@,
            ),
            Err(rejection) => spec_stream_outcome(download, wire@) is Err && rejection@
                == spec_stream_outcome(download, wire@)->Err_0.spec_refusal(),
        },
{
    let ghost key = download.spec_key();
    let ghost size = download.spec_file_size() as nat;
    let ghost expected_hash = download.spec_expected_hash();
    let ghost stream = spec_download_stream(key, size, download.spec_received() as nat, wire@);
    let mut machine = download;
    let mut file: Vec<u8> = Vec::new();
    let mut position: usize = 0;
    let mut action: DownloadAction = match machine.step(DownloadEvent::Start) {
        DownloadAction::Open(_) => machine.step(DownloadEvent::Opened),
        DownloadAction::Abort { signal, error, .. } => {
            return Err(Rejection { error, signal });
        },
        _ => unreached(),
    };
    assert(wire@.skip(0) =~= wire@);
    assert(Seq::<u8>::empty() + stream->Ok_0 =~= stream->Ok_0);
    loop
        invariant
            position <= wire@.len(),
            machine.spec_key() == key,
            machine.spec_file_size() == size,
            machine.spec_expected_hash() == expected_hash,
            stream == match spec_download_stream(
                key,
                size,
                machine.spec_received() as nat,
                wire@.skip(position as int),
            ) {
                Err(failure) => Err::<Seq<u8>, StreamFailure>(failure),
                Ok(rest) => Ok(file@ + rest),
            },
            if machine.spec_received() == size {
                machine.spec_phase() == DownloadPhase::Hashing && action is Hash
            } else {
                &&& machine.spec_phase() == DownloadPhase::AwaitingPrefix
                &&& action matches DownloadAction::ReadExact(asked)
                &&& asked == 4
            },
        decreases wire@.len() - position,
    {
        let ghost rest = wire@.skip(position as int);
        match action {
            DownloadAction::Hash => {
                assert(file@ + Seq::<u8>::empty() =~= file@);
                let hash: String = compute_file_hash(file.as_slice());
                match machine.step(DownloadEvent::Hashed(hash)) {
                    DownloadAction::Finish(_) => {
                        return Ok(file);
                    },
                    DownloadAction::Abort { signal, error, .. } => {
                        return Err(Rejection { error, signal });
                    },
                    _ => {
                        return unreached();
                    },
                }
            },
            DownloadAction::ReadExact(_) => {
                if wire.len() - position < 4 {
                    let cause: String = String::from_str("failed to fill whole buffer");
                    match machine.step(DownloadEvent::ReadFailed(cause)) {
                        DownloadAction::Abort { signal, error, .. } => {
                            return Err(Rejection { error, signal });
                        },
                        _ => {
                            return unreached();
                        },
                    }
                }
                let prefix: Vec<u8> = slice_to_vec(slice_subrange(wire, position, position + 4));
                assert(prefix@ =~= rest.take(4));
                position = position + 4;
                let len: usize = match machine.step(DownloadEvent::Read(prefix)) {
                    DownloadAction::ReadExact(len) => len,
                    _ => unreached(),
                };
                if wire.len() - position < len {
                    let cause: String = String::from_str("failed to fill whole buffer");
                    match machine.step(DownloadEvent::ReadFailed(cause)) {
                        DownloadAction::Abort { signal, error, .. } => {
                            return Err(Rejection { error, signal });
                        },
                        _ => {
                            return unreached();
                        },
                    }
                }
                let blob: Vec<u8> = slice_to_vec(slice_subrange(wire, position, position + len));
                assert(blob@ =~= rest.subrange(4, 4 + len));
                position = position + len;
                assert(wire@.skip(position as int) =~= rest.skip(4 + len));
                match machine.step(DownloadEvent::Read(blob)) {
                    DownloadAction::Write(plaintext) => {
                        let ghost before = file@;
                        file.extend_from_slice(plaintext.as_slice());
                        assert(file@ =~= before + plaintext@);
                        proof {
                            let later = spec_download_stream(
                                key,
                                size,
                                machine.spec_received() as nat,
                                wire@.skip(position as int),
                            );
                            if later is Ok {
                                assert(before + (plaintext@ + later->Ok_0) =~= file@
                                    + later->Ok_0);
                            }
                        }
                        action = machine.step(DownloadEvent::Written);
                    },
                    DownloadAction::Abort { signal, error, .. } => {
                        return Err(Rejection { error, signal });
                    },
                    _ => {
                        return unreached();
                    },
                }
            },
            _ => {
                return unreached();
            },
        }
    }
}

/// Runs an upload over a file in memory, up to the point where the
/// receiver's confirmation is awaited, and returns the bytes that it writes
/// to the socket.
///
/// Fails where the upload is not at its beginning, or where the file is
/// longer than the upload can count.
#[verifier::loop_isolation(false)]
pub fn send_stream(upload: &mut Upload, data: &[u8]) -> (result: Result<Vec<u8>>)
    ensures
        final(upload).spec_key() == old(upload).spec_key(),
        final(upload).spec_file_size() == old(upload).spec_file_size(),
        match result {
            Ok(wire) => {
                &&& old(upload).spec_phase() == UploadPhase::Idle
                &&& old(upload).spec_sent() + data@.len() <= u64::MAX
                &&& final(upload).spec_phase() == UploadPhase::AwaitingAck
                &&& final(upload).spec_sent() == old(upload).spec_sent() + data@.len()
                &&& spec_is_sent_stream(old(upload).spec_key(), data@, wire@)
            },
            Err(e) => {
                &&& final(upload).spec_phase() == UploadPhase::Failed
                &&& if old(upload).spec_phase() != UploadPhase::Idle {
                    e.is(ErrorKind::SessionError, spec_out_of_order_message())
                } else {
                    old(upload).spec_sent() + data@.len() > u64::MAX && e.is(
                        ErrorKind::InvalidInput,
                        spec_overflow_message(),
                    )
                }
            },
        },
{
    let ghost key = upload.spec_key();
    let ghost size = FILE_CHUNK_SIZE as nat;
    let ghost sent = upload.spec_sent() as int;
    let ghost mut blobs: Seq<Seq<u8>> = Seq::empty();
    let ghost mut chunks: Seq<Seq<u8>> = Seq::empty();
    let mut wire: Vec<u8> = Vec::new();
    let mut position: usize = 0;
    match upload.step(UploadEvent::Start) {
        UploadAction::ReadFile(_) => {},
        UploadAction::Abort(error) => {
            return Err(error);
        },
        _ => {
            return unreached();
        },
    }
    assert(data@.skip(0) =~= data@);
    assert(chunks + spec_chunks(data@, size) =~= spec_chunks(data@, size));
    assert(wire@ =~= spec_wire(blobs));
    loop
        invariant
            position <= data@.len(),
            upload.spec_key() == key,
            upload.spec_file_size() == old(upload).spec_file_size(),
            upload.spec_phase() == UploadPhase::Reading,
            upload.spec_sent() == sent + position,
            old(upload).spec_phase() == UploadPhase::Idle,
            old(upload).spec_sent() == sent,
            size == FILE_CHUNK_SIZE,
            wire@ == spec_wire(blobs),
            blobs.len() == chunks.len(),
            forall|i: int|
                0 <= i < blobs.len() ==> spec_is_encryption(key, #[trigger] chunks[i], blobs[i]),
            spec_chunks(data@, size) == chunks + spec_chunks(data@.skip(position as int), size),
        decreases data@.len() - position,
    {
        let ghost rest = data@.skip(position as int);
        let remaining: usize = data.len() - position;
        let take: usize = if remaining < FILE_CHUNK_SIZE {
            remaining
        } else {
            FILE_CHUNK_SIZE
        };
        let chunk: Vec<u8> = slice_to_vec(slice_subrange(data, position, position + take));
        if take == 0 {
            assert(spec_chunks(rest, size) =~= Seq::<Seq<u8>>::empty());
            assert(chunks + Seq::<Seq<u8>>::empty() =~= chunks);
            match upload.step(UploadEvent::FileRead(chunk)) {
                UploadAction::Flush => {},
                _ => {
                    return unreached();
                },
            }
            match upload.step(UploadEvent::Flushed) {
                UploadAction::ReadAck(_) => {},
                _ => {
                    return unreached();
                },
            }
            assert(spec_is_stream_of(key, data@, blobs, wire@));
            assert(spec_is_sent_stream(key, data@, wire@));
            return Ok(wire);
        }
        proof {
            assert(chunk@ =~= rest.take(take as int));
            if rest.len() <= size {
                assert(chunk@ =~= rest);
                assert(spec_chunks(rest, size) =~= seq![chunk@]);
                assert(data@.skip(position + take) =~= Seq::<u8>::empty());
                assert(spec_chunks(data@.skip(position + take), size) =~= Seq::<
                    Seq<u8>,
                >::empty());
            } else {
                assert(rest.skip(size as int) =~= data@.skip(position + take));
            }
            assert(spec_chunks(rest, size) =~= seq![chunk@] + spec_chunks(
                data@.skip(position + take),
                size,
            ));
            assert(chunks + spec_chunks(rest, size) =~= chunks.push(chunk@) + spec_chunks(
                data@.skip(position + take),
                size,
            ));
        }
        match upload.step(UploadEvent::FileRead(chunk)) {
            UploadAction::Send(frame) => {
                proof {
                    let blob = frame@.skip(4);
                    lemma_wire_push(blobs, blob);
                    chunks = chunks.push(chunk@);
                    blobs = blobs.push(blob);
                }
                wire.extend_from_slice(frame.as_slice());
                assert(wire@ =~= spec_wire(blobs));
            },
            UploadAction::Abort(error) => {
                return Err(error);
            },
            _ => {
                return unreached();
            },
        }
        match upload.step(UploadEvent::Sent) {
            UploadAction::ReadFile(_) => {},
            _ => {
                return unreached();
            },
        }
        position = position + take;
    }
}

} // verus!
