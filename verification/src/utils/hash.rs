use crate::utils::encoding::{hex_encode, spec_hex_encode};
use crate::utils::error::{Error, ErrorKind, Result};
use sha2::Digest;
use vstd::prelude::*;
use vstd::string::StringExecFns;

verus! {

/// The SHA-256 digest of a byte string: 32 bytes.
pub uninterp spec fn spec_sha256(data: Seq<u8>) -> Seq<u8>;

/// The hash of a file as both peers write it: the SHA-256 digest of its
/// content in lower-case hexadecimal text.
pub open spec fn spec_file_hash(content: Seq<u8>) -> Seq<char> {
    spec_hex_encode(spec_sha256(content))
}

/// The text of the error for a path that names no regular file.
pub open spec fn spec_not_a_file_message(path: Seq<char>) -> Seq<char> {
    path + " is not a file"@
}

/// The SHA-256 digest of `data`.
///
/// Trusted: calls `Sha256::digest` of sha2.
#[verifier::external_body]
fn sha256(data: &[u8]) -> (digest: [u8; 32])
    ensures
        digest@ == spec_sha256(data@),
{
    sha2::Sha256::digest(data).into()
}

/// The hash of a file with the given content: its SHA-256 digest as
/// lower-case hexadecimal text. This text is what the metadata envelope
/// carries.
pub fn compute_file_hash(content: &[u8]) -> (hash: String)
    ensures
        hash@ == spec_file_hash(content@),
{
    let digest: [u8; 32] = sha256(content);
    hex_encode(digest.as_slice())
}

/// Decides whether a path can be sent, from what the file system says of it:
/// it must exist and name a regular file.
pub fn validate_file_path(path: &str, exists: bool, is_file: bool) -> (result: Result<()>)
    ensures
        result is Ok <==> exists && is_file,
        !exists ==> (result matches Err(e) && e.is(ErrorKind::FileError, path@)),
        exists && !is_file ==> (result matches Err(e) && e.is(
            ErrorKind::InvalidInput,
            spec_not_a_file_message(path@),
        )),
{
    if !exists {
        return Err(Error::FileError(String::from_str(path)));
    }
    if !is_file {
        return Err(Error::InvalidInput(String::from_str(path).concat(" is not a file")));
    }
    Ok(())
}

} // verus!
