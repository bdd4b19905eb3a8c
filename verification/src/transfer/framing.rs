use crate::config::constants::{AEAD_OVERHEAD, FRAME_PREFIX_LEN};
use crate::crypto::encryption::{encrypt_chunk, spec_decrypt_chunk, spec_is_encryption};
use crate::utils::error::{Error, ErrorKind, Result};
use vstd::prelude::*;
use vstd::string::StringExecFns;

verus! {

/// The four big-endian bytes of a length below 2^32.
#[verifier::opaque]
pub open spec fn spec_be32(len: nat) -> Seq<u8> {
    seq![
        (len / 16777216) as u8,
        ((len / 65536) % 256) as u8,
        ((len / 256) % 256) as u8,
        (len % 256) as u8,
    ]
}

/// The length that four big-endian bytes stand for.
#[verifier::opaque]
pub open spec fn spec_from_be32(prefix: Seq<u8>) -> nat {
    (prefix[0] as nat) * 16777216 + (prefix[1] as nat) * 65536 + (prefix[2] as nat) * 256
        + prefix[3] as nat
}

/// A frame: the length of the blob in four big-endian bytes, then the blob.
pub open spec fn spec_frame(blob: Seq<u8>) -> Seq<u8> {
    spec_be32(blob.len()) + blob
}

/// Whether `frame` carries an encryption of `chunk` under `key`.
pub open spec fn spec_is_frame_of(key: Seq<u8>, chunk: Seq<u8>, frame: Seq<u8>) -> bool {
    &&& frame.len() == FRAME_PREFIX_LEN + AEAD_OVERHEAD + chunk.len()
    &&& frame.len() - FRAME_PREFIX_LEN < 0x1_0000_0000
    &&& frame == spec_frame(frame.skip(FRAME_PREFIX_LEN as int))
    &&& spec_is_encryption(key, chunk, frame.skip(FRAME_PREFIX_LEN as int))
}

/// The bytes on the wire for a sequence of blobs: their frames in order.
pub open spec fn spec_wire(blobs: Seq<Seq<u8>>) -> Seq<u8>
    decreases blobs.len(),
{
    if blobs.len() == 0 {
        Seq::empty()
    } else {
        spec_frame(blobs[0]) + spec_wire(blobs.drop_first())
    }
}

/// The blobs that a byte stream carries, read frame by frame; `None` where
/// the stream ends inside a frame.
pub open spec fn spec_deframe(wire: Seq<u8>) -> Option<Seq<Seq<u8>>>
    decreases wire.len(),
{
    if wire.len() == 0 {
        Some(Seq::empty())
    } else if wire.len() < 4 {
        None
    } else {
        let len = spec_from_be32(wire.take(4)) as int;
        if wire.len() < 4 + len {
            None
        } else {
            match spec_deframe(wire.skip(4 + len)) {
                None => None,
                Some(rest) => Some(seq![wire.subrange(4, 4 + len)] + rest),
            }
        }
    }
}

/// The chunks of a file: consecutive pieces of `size` bytes, the last one
/// possibly shorter, none empty.
pub open spec fn spec_chunks(data: Seq<u8>, size: nat) -> Seq<Seq<u8>>
    decreases data.len(),
{
    if size == 0 || data.len() == 0 {
        Seq::empty()
    } else if data.len() <= size {
        seq![data]
    } else {
        seq![data.take(size as int)] + spec_chunks(data.skip(size as int), size)
    }
}

/// The bytes of a sequence of pieces, one after the other.
pub open spec fn spec_concat(pieces: Seq<Seq<u8>>) -> Seq<u8>
    decreases pieces.len(),
{
    if pieces.len() == 0 {
        Seq::empty()
    } else {
        pieces[0] + spec_concat(pieces.drop_first())
    }
}

/// What decrypting every blob under `key` and joining the plaintexts gives;
/// `None` where a blob is rejected.
pub open spec fn spec_decrypt_all(key: Seq<u8>, blobs: Seq<Seq<u8>>) -> Option<Seq<u8>>
    decreases blobs.len(),
{
    if blobs.len() == 0 {
        Some(Seq::empty())
    } else {
        match spec_decrypt_chunk(key, blobs[0]) {
            None => None,
            Some(plaintext) => match spec_decrypt_all(key, blobs.drop_first()) {
                None => None,
                Some(rest) => Some(plaintext + rest),
            },
        }
    }
}

/// What a receiver with `key` recovers from a byte stream: it reads the
/// frames, decrypts every blob and joins the plaintexts.
pub open spec fn spec_receive(key: Seq<u8>, wire: Seq<u8>) -> Option<Seq<u8>> {
    match spec_deframe(wire) {
        None => None,
        Some(blobs) => spec_decrypt_all(key, blobs),
    }
}

/// A length below 2^32 survives the way through its four bytes.
pub proof fn lemma_be32_round_trip(len: nat)
    requires
        len < 0x1_0000_0000,
    ensures
        spec_be32(len).len() == 4,
        spec_from_be32(spec_be32(len)) == len,
{
    reveal(spec_be32);
    reveal(spec_from_be32);
    let b0 = len / 16777216;
    let b1 = (len / 65536) % 256;
    let b2 = (len / 256) % 256;
    let b3 = len % 256;
    assert(b0 < 256);
    assert(b0 * 16777216 + b1 * 65536 + b2 * 256 + b3 == len);
}

/// Four bytes are the big-endian form of the length they stand for.
pub proof fn lemma_from_be32_round_trip(prefix: Seq<u8>)
    requires
        prefix.len() == 4,
    ensures
        spec_from_be32(prefix) < 0x1_0000_0000,
        spec_be32(spec_from_be32(prefix)) == prefix,
{
    reveal(spec_be32);
    reveal(spec_from_be32);
    let len = spec_from_be32(prefix) as int;
    let b0 = prefix[0] as int;
    let b1 = prefix[1] as int;
    let b2 = prefix[2] as int;
    let b3 = prefix[3] as int;
    lemma_split_be32(len, b0, b1, b2, b3);
    assert(spec_be32(len as nat) =~= prefix);
}

/// The four digits of a number to the base 256 are found by division.
proof fn lemma_split_be32(len: int, b0: int, b1: int, b2: int, b3: int)
    requires
        0 <= b0 < 256,
        0 <= b1 < 256,
        0 <= b2 < 256,
        0 <= b3 < 256,
        len == b0 * 16777216 + b1 * 65536 + b2 * 256 + b3,
    ensures
        0 <= len < 0x1_0000_0000,
        len / 16777216 == b0,
        (len / 65536) % 256 == b1,
        (len / 256) % 256 == b2,
        len % 256 == b3,
{
    let high = b0 * 256 + b1;
    let upper = high * 256 + b2;
    assert(len == upper * 256 + b3);
    assert(len / 256 == upper && len % 256 == b3);
    assert(upper / 256 == high && upper % 256 == b2);
    assert(len / 65536 == high);
    assert(high / 256 == b0 && high % 256 == b1);
    assert(len / 16777216 == b0);
}

/// Reading the frames of a byte stream gives back the blobs that were framed,
/// in order.
pub proof fn lemma_deframe_inverts_wire(blobs: Seq<Seq<u8>>)
    requires
        forall|i: int| 0 <= i < blobs.len() ==> (#[trigger] blobs[i]).len() < 0x1_0000_0000,
    ensures
        spec_deframe(spec_wire(blobs)) == Some(blobs),
    decreases blobs.len(),
{
    if blobs.len() > 0 {
        let first = blobs[0];
        let rest = blobs.drop_first();
        let wire = spec_wire(blobs);
        let len = first.len() as int;
        lemma_be32_round_trip(first.len());
        assert(wire == spec_be32(first.len()) + first + spec_wire(rest));
        assert(wire.take(4) =~= spec_be32(first.len()));
        assert(wire.subrange(4, 4 + len) =~= first);
        assert(wire.skip(4 + len) =~= spec_wire(rest));
        assert forall|i: int| 0 <= i < rest.len() implies (#[trigger] rest[i]).len()
            < 0x1_0000_0000 by {
            assert(rest[i] == blobs[i + 1]);
        }
        lemma_deframe_inverts_wire(rest);
        assert(seq![first] + rest =~= blobs);
    }
}

/// The chunks of a file, joined, are the file; none is empty and none is
/// longer than the chunk size.
pub proof fn lemma_chunks_cover(data: Seq<u8>, size: nat)
    requires
        size > 0,
    ensures
        spec_concat(spec_chunks(data, size)) == data,
        forall|i: int|
            0 <= i < spec_chunks(data, size).len() ==> 0 < (#[trigger] spec_chunks(
                data,
                size,
            )[i]).len() <= size,
    decreases data.len(),
{
    let chunks = spec_chunks(data, size);
    if data.len() == 0 {
        assert(spec_concat(chunks) =~= data);
    } else if data.len() <= size {
        assert(chunks.drop_first() =~= Seq::<Seq<u8>>::empty());
        assert(spec_concat(chunks.drop_first()) =~= Seq::<u8>::empty());
        assert(spec_concat(chunks) =~= data);
    } else {
        let head = data.take(size as int);
        let tail = data.skip(size as int);
        lemma_chunks_cover(tail, size);
        let rest = spec_chunks(tail, size);
        assert(chunks.drop_first() =~= rest);
        assert(chunks[0] == head);
        assert(spec_concat(chunks) =~= head + tail);
        assert(head + tail =~= data);
        assert forall|i: int| 0 <= i < chunks.len() implies 0 < (#[trigger] chunks[i]).len()
            <= size by {
            if i > 0 {
                assert(chunks[i] == rest[i - 1]);
            }
        }
    }
}

/// Decrypting the encryptions of a sequence of pieces and joining the
/// plaintexts gives the pieces joined, however the file was cut into pieces.
pub proof fn lemma_decrypt_all_inverts(key: Seq<u8>, pieces: Seq<Seq<u8>>, blobs: Seq<Seq<u8>>)
    requires
        blobs.len() == pieces.len(),
        forall|i: int|
            0 <= i < pieces.len() ==> spec_is_encryption(key, #[trigger] pieces[i], blobs[i]),
    ensures
        spec_decrypt_all(key, blobs) == Some(spec_concat(pieces)),
    decreases pieces.len(),
{
    if pieces.len() > 0 {
        assert(spec_is_encryption(key, pieces[0], blobs[0]));
        let rest_pieces = pieces.drop_first();
        let rest_blobs = blobs.drop_first();
        assert forall|i: int| 0 <= i < rest_pieces.len() implies spec_is_encryption(
            key,
            #[trigger] rest_pieces[i],
            rest_blobs[i],
        ) by {
            assert(rest_pieces[i] == pieces[i + 1]);
            assert(rest_blobs[i] == blobs[i + 1]);
        }
        lemma_decrypt_all_inverts(key, rest_pieces, rest_blobs);
    }
}

/// Framing preserves the file: where a file is split into chunks of `size`
/// bytes and every chunk is encrypted and framed, the receiver that reads the
/// frames, decrypts every blob and joins the plaintexts has the bytes of the
/// file, in order.
pub proof fn lemma_framing_preserves_file(
    key: Seq<u8>,
    data: Seq<u8>,
    size: nat,
    blobs: Seq<Seq<u8>>,
)
    requires
        0 < size < 0x1_0000_0000 - AEAD_OVERHEAD,
        blobs.len() == spec_chunks(data, size).len(),
        forall|i: int|
            0 <= i < blobs.len() ==> spec_is_encryption(
                key,
                #[trigger] spec_chunks(data, size)[i],
                blobs[i],
            ),
    ensures
        spec_receive(key, spec_wire(blobs)) == Some(data),
{
    let chunks = spec_chunks(data, size);
    lemma_chunks_cover(data, size);
    assert forall|i: int| 0 <= i < blobs.len() implies (#[trigger] blobs[i]).len()
        < 0x1_0000_0000 by {
        assert(spec_is_encryption(key, chunks[i], blobs[i]));
    }
    lemma_deframe_inverts_wire(blobs);
    lemma_decrypt_all_inverts(key, chunks, blobs);
}

/// The four big-endian bytes of a length.
pub fn encode_length(len: u32) -> (prefix: [u8; 4])
    ensures
        prefix@ == spec_be32(len as nat),
{
    let b0: u8 = (len / 16777216) as u8;
    let b1: u8 = ((len / 65536) % 256) as u8;
    let b2: u8 = ((len / 256) % 256) as u8;
    let b3: u8 = (len % 256) as u8;
    let prefix: [u8; 4] = [b0, b1, b2, b3];
    proof {
        reveal(spec_be32);
    }
    assert(prefix@ =~= spec_be32(len as nat));
    prefix
}

/// The length that the four bytes before a blob announce.
pub fn decode_length(prefix: &[u8; 4]) -> (len: u32)
    ensures
        len == spec_from_be32(prefix@),
{
    let b0: u32 = prefix[0] as u32;
    let b1: u32 = prefix[1] as u32;
    let b2: u32 = prefix[2] as u32;
    let b3: u32 = prefix[3] as u32;
    proof {
        reveal(spec_from_be32);
    }
    b0 * 16777216 + b1 * 65536 + b2 * 256 + b3
}

/// The text of the error for an event that a transfer does not await.
pub open spec fn spec_out_of_order_message() -> Seq<char> {
    "Transfer out of order"@
}

/// The text of the error for a transfer of more bytes than can be counted.
pub open spec fn spec_overflow_message() -> Seq<char> {
    "Transfer interrupted - more bytes than a transfer can hold"@
}

/// The error for a transfer of more bytes than can be counted.
pub(crate) fn overflow_error() -> (error: Error)
    ensures
        error.is(ErrorKind::InvalidInput, spec_overflow_message()),
{
    Error::InvalidInput(
        String::from_str("Transfer interrupted - more bytes than a transfer can hold"),
    )
}

/// The error for an event that a transfer does not await.
pub(crate) fn out_of_order_error() -> (error: Error)
    ensures
        error.is(ErrorKind::SessionError, spec_out_of_order_message()),
{
    Error::SessionError(String::from_str("Transfer out of order"))
}

/// The text of the error for a chunk that no frame can hold.
pub open spec fn spec_chunk_too_large_message() -> Seq<char> {
    "Chunk too large for one frame"@
}

/// Encrypts one chunk of a file and frames it for the wire: the length of
/// the encrypted blob in four big-endian bytes, then the blob.
///
/// Fails, before anything is encrypted, where the blob would be too long for
/// the length prefix.
pub fn encode_frame(aes_key: &[u8; 32], chunk: &[u8]) -> (result: Result<Vec<u8>>)
    ensures
        match result {
            Ok(frame) => chunk@.len() + AEAD_OVERHEAD < 0x1_0000_0000 && spec_is_frame_of(
                aes_key@,
                chunk@,
                frame@,
            ),
            Err(e) => chunk@.len() + AEAD_OVERHEAD >= 0x1_0000_0000 && e.is(
                ErrorKind::InvalidInput,
                spec_chunk_too_large_message(),
            ),
        },
{
    if chunk.len() > 0xFFFF_FFFF - AEAD_OVERHEAD {
        return Err(Error::InvalidInput(String::from_str("Chunk too large for one frame")));
    }
    match encrypt_chunk(aes_key, chunk) {
        Ok(blob) => {
            let len: u32 = blob.len() as u32;
            let prefix: [u8; 4] = encode_length(len);
            let mut frame: Vec<u8> = Vec::new();
            frame.extend_from_slice(prefix.as_slice());
            frame.extend_from_slice(blob.as_slice());
            proof {
                assert(frame@ =~= spec_be32(blob@.len()) + blob@);
                assert(frame@.skip(4) =~= blob@);
            }
            Ok(frame)
        },
        Err(e) => {
            proof {
                assert(false);
            }
            Err(e)
        },
    }
}

} // verus!
