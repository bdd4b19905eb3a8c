use crate::utils::encoding::{
    decimal_string, lemma_decimal_digits, lemma_decimal_injective,
    lemma_hex_digits_are_alphanumeric, spec_decimal, spec_hex_encode,
};
use vstd::prelude::*;
use vstd::string::StringExecFns;
use vstd::utf8::{encode_utf8, encode_utf8_decode_utf8};

verus! {

/// The metadata envelope: file name, size in decimal and hash, separated by
/// `|`, without a trailing newline. The sender signs its UTF-8 bytes and the
/// receiver rebuilds it to verify the signature.
pub open spec fn spec_envelope(filename: Seq<char>, filesize: nat, file_hash: Seq<char>) -> Seq<
    char,
> {
    filename + seq!['|'] + spec_decimal(filesize) + seq!['|'] + file_hash
}

/// Whether a text holds the separator `|`.
pub open spec fn spec_has_separator(text: Seq<char>) -> bool {
    exists|i: int| 0 <= i < text.len() && text[i] == '|'
}

/// Builds the metadata envelope of a transfer.
pub fn metadata_envelope(filename: &str, filesize: u64, file_hash: &str) -> (envelope: String)
    ensures
        envelope@ == spec_envelope(filename@, filesize as nat, file_hash@),
{
    proof {
        reveal_strlit("|");
    }
    let envelope: String = String::from_str(filename).concat("|").concat(
        decimal_string(filesize).as_str(),
    ).concat("|").concat(file_hash);
    assert(envelope@ =~= spec_envelope(filename@, filesize as nat, file_hash@));
    envelope
}

/// A text that ends in a separator and a tail without one can be split in
/// only one way.
proof fn lemma_split_at_last_separator(
    head1: Seq<char>,
    tail1: Seq<char>,
    head2: Seq<char>,
    tail2: Seq<char>,
)
    requires
        head1 + seq!['|'] + tail1 == head2 + seq!['|'] + tail2,
        !spec_has_separator(tail1),
        !spec_has_separator(tail2),
    ensures
        head1 == head2,
        tail1 == tail2,
{
    let text1 = head1 + seq!['|'] + tail1;
    let text2 = head2 + seq!['|'] + tail2;
    assert(text1.len() == head1.len() + 1 + tail1.len());
    assert(text2.len() == head2.len() + 1 + tail2.len());
    if tail1.len() < tail2.len() {
        let p = head1.len() as int;
        assert(text1[p] == '|');
        assert(text2[p] == tail2[p - head2.len() - 1]);
        assert(false);
    }
    if tail2.len() < tail1.len() {
        let p = head2.len() as int;
        assert(text2[p] == '|');
        assert(text1[p] == tail1[p - head1.len() - 1]);
        assert(false);
    }
    assert(head1.len() == head2.len());
    assert forall|i: int| 0 <= i < head1.len() implies head1[i] == head2[i] by {
        assert(text1[i] == head1[i]);
        assert(text2[i] == head2[i]);
    }
    assert(head1 =~= head2);
    assert forall|i: int| 0 <= i < tail1.len() implies tail1[i] == tail2[i] by {
        assert(text1[head1.len() + 1 + i] == tail1[i]);
        assert(text2[head2.len() + 1 + i] == tail2[i]);
    }
    assert(tail1 =~= tail2);
}

/// The envelope binds its three parts: two transfers with the same envelope
/// have the same file name, the same size and the same hash, as long as the
/// hashes hold no separator (and no hexadecimal text does).
pub proof fn lemma_envelope_injective(
    filename1: Seq<char>,
    filesize1: nat,
    file_hash1: Seq<char>,
    filename2: Seq<char>,
    filesize2: nat,
    file_hash2: Seq<char>,
)
    requires
        spec_envelope(filename1, filesize1, file_hash1) == spec_envelope(
            filename2,
            filesize2,
            file_hash2,
        ),
        !spec_has_separator(file_hash1),
        !spec_has_separator(file_hash2),
    ensures
        filename1 == filename2,
        filesize1 == filesize2,
        file_hash1 == file_hash2,
{
    let size1 = spec_decimal(filesize1);
    let size2 = spec_decimal(filesize2);
    lemma_split_at_last_separator(
        filename1 + seq!['|'] + size1,
        file_hash1,
        filename2 + seq!['|'] + size2,
        file_hash2,
    );
    lemma_decimal_digits(filesize1);
    lemma_decimal_digits(filesize2);
    lemma_split_at_last_separator(filename1, size1, filename2, size2);
    lemma_decimal_injective(filesize1, filesize2);
}

/// The bytes that the sender signs for a transfer: the UTF-8 bytes of its
/// metadata envelope.
pub open spec fn spec_signed_bytes(filename: Seq<char>, filesize: nat, file_hash: Seq<char>) -> Seq<
    u8,
> {
    encode_utf8(spec_envelope(filename, filesize, file_hash))
}

/// A change of the metadata changes the signed bytes: two transfers that
/// differ in file name, size or hash have different bytes to sign, as long
/// as the hashes hold no separator. So a signature that is accepted for
/// changed metadata is accepted for bytes that were never signed.
pub proof fn lemma_mutation_changes_signed_bytes(
    filename1: Seq<char>,
    filesize1: nat,
    file_hash1: Seq<char>,
    filename2: Seq<char>,
    filesize2: nat,
    file_hash2: Seq<char>,
)
    requires
        filename1 != filename2 || filesize1 != filesize2 || file_hash1 != file_hash2,
        !spec_has_separator(file_hash1),
        !spec_has_separator(file_hash2),
    ensures
        spec_signed_bytes(filename1, filesize1, file_hash1) != spec_signed_bytes(
            filename2,
            filesize2,
            file_hash2,
        ),
{
    let envelope1 = spec_envelope(filename1, filesize1, file_hash1);
    let envelope2 = spec_envelope(filename2, filesize2, file_hash2);
    if encode_utf8(envelope1) == encode_utf8(envelope2) {
        encode_utf8_decode_utf8(envelope1);
        encode_utf8_decode_utf8(envelope2);
        assert(envelope1 == envelope2);
        lemma_envelope_injective(
            filename1,
            filesize1,
            file_hash1,
            filename2,
            filesize2,
            file_hash2,
        );
    }
}

/// Hexadecimal text holds no separator.
pub proof fn lemma_hex_has_no_separator(bytes: Seq<u8>)
    ensures
        !spec_has_separator(spec_hex_encode(bytes)),
{
    lemma_hex_digits_are_alphanumeric(bytes);
}

} // verus!
