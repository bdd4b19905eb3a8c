use crate::crypto::random::try_random_seed;
use crate::crypto::signing::{
    signs_for, spec_ed25519_is_point, spec_ed25519_public_key, spec_ed25519_sign,
    spec_ed25519_verify, SigningKey, VerifyingKey,
};
use crate::dirs::config::{join_path, spec_join};
use crate::utils::encoding::{hex_encode, spec_hex_encode, to_array};
use crate::utils::error::{Error, ErrorKind, Result};
use vstd::prelude::*;
use vstd::slice::slice_subrange;
use vstd::string::StringExecFns;
use vstd::utf8::encode_utf8;

verus! {

/// Name of the file that holds the secret key.
pub const PRIVATE_KEY_FILE: &'static str = "private.key";

/// Name of the file that holds the public key.
pub const PUBLIC_KEY_FILE: &'static str = "public.key";

/// Whether `verifying_key` accepts what `signing_key` signs for `message`.
pub open spec fn spec_keys_agree_on(
    signing_key: Seq<u8>,
    verifying_key: Seq<u8>,
    message: Seq<u8>,
) -> bool {
    spec_ed25519_verify(verifying_key, message, spec_ed25519_sign(signing_key, message))
}

/// The message that a fresh key pair signs to test itself.
pub open spec fn spec_self_test_message() -> Seq<u8> {
    encode_utf8("SUPER_SECRET"@)
}

/// The message that a stored key pair signs to be validated.
pub open spec fn spec_validation_message() -> Seq<u8> {
    encode_utf8("VALIDATE_KEYPAIR"@)
}

/// What loading a key pair from the content of its two files gives: nothing
/// but the text of the error where a file has not 32 bytes or the public key
/// is no point of the curve.
pub open spec fn spec_load_failure(private_key: Seq<u8>, public_key: Seq<u8>) -> Option<Seq<char>> {
    if private_key.len() != 32 {
        Some("Invalid private key size"@)
    } else if public_key.len() != 32 {
        Some("Invalid public key size"@)
    } else if !spec_ed25519_is_point(public_key) {
        Some("Invalid public key"@)
    } else {
        None
    }
}

/// Where the identity keys lie by default: `.config/rshare/keys` under the
/// home directory.
pub fn get_default_keys_dir(home_dir: Option<&str>) -> (result: Result<String>)
    ensures
        match home_dir {
            Some(home) => result matches Ok(path) && path@ == spec_join(
                spec_join(spec_join(home@, ".config"@), "rshare"@),
                "keys"@,
            ),
            None => result matches Err(e) && e.is(
                ErrorKind::ConfigError,
                "Could not determine home directory"@,
            ),
        },
{
    match home_dir {
        Some(home) => Ok(
            join_path(join_path(join_path(home, ".config").as_str(), "rshare").as_str(), "keys"),
        ),
        None => Err(Error::ConfigError(String::from_str("Could not determine home directory"))),
    }
}

/// Where the secret key lies in a key directory.
pub fn private_key_path(keys_dir: &str) -> (path: String)
    ensures
        path@ == spec_join(keys_dir@, PRIVATE_KEY_FILE@),
{
    join_path(keys_dir, PRIVATE_KEY_FILE)
}

/// Where the public key lies in a key directory.
pub fn public_key_path(keys_dir: &str) -> (path: String)
    ensures
        path@ == spec_join(keys_dir@, PUBLIC_KEY_FILE@),
{
    join_path(keys_dir, PUBLIC_KEY_FILE)
}

/// The identity that belongs to a secret key, where it passes its self-test:
/// the public key must accept what the secret key signs.
pub fn keys_from_seed(seed: &[u8; 32]) -> (result: Result<(SigningKey, VerifyingKey)>)
    ensures
        match result {
            Ok((signing_key, verifying_key)) => {
                &&& signing_key@ == seed@
                &&& verifying_key@ == spec_ed25519_public_key(seed@)
                &&& spec_keys_agree_on(
                    seed@,
                    spec_ed25519_public_key(seed@),
                    spec_self_test_message(),
                )
            },
            Err(e) => {
                &&& !spec_keys_agree_on(
                    seed@,
                    spec_ed25519_public_key(seed@),
                    spec_self_test_message(),
                )
                &&& e.is(ErrorKind::CryptoError, "Generated keypair failed self-test"@)
            },
        },
{
    let signing_key: SigningKey = SigningKey::from_bytes(seed);
    let verifying_key: VerifyingKey = signing_key.verifying_key();
    if signs_for(&signing_key, &verifying_key, "SUPER_SECRET".as_bytes()) {
        Ok((signing_key, verifying_key))
    } else {
        Err(Error::CryptoError(String::from_str("Generated keypair failed self-test")))
    }
}

/// Generates a new identity from fresh random bytes.
///
/// Whatever the random number generator gives: a key pair that comes back
/// has passed its self-test, and a failure is a cryptography error.
pub fn generate_keys() -> (result: Result<(SigningKey, VerifyingKey)>)
    ensures
        match result {
            Ok((signing_key, verifying_key)) => {
                &&& verifying_key@ == spec_ed25519_public_key(signing_key@)
                &&& spec_keys_agree_on(signing_key@, verifying_key@, spec_self_test_message())
            },
            Err(e) => {
                &&& e.spec_kind() == ErrorKind::CryptoError
                &&& e.spec_message() == "Failed to generate bytes"@ || e.spec_message()
                    == "Generated keypair failed self-test"@
            },
        },
{
    match try_random_seed() {
        Some(seed) => keys_from_seed(&seed),
        None => Err(Error::CryptoError(String::from_str("Failed to generate bytes"))),
    }
}

/// The identity whose two key files hold the given bytes. Each file must
/// hold 32 bytes, and the public key must be a point of the curve.
pub fn load_keys_from(private_key: &[u8], public_key: &[u8]) -> (result: Result<
    (SigningKey, VerifyingKey),
>)
    ensures
        match result {
            Ok((signing_key, verifying_key)) => {
                &&& spec_load_failure(private_key@, public_key@) is None
                &&& signing_key@ == private_key@
                &&& verifying_key@ == public_key@
            },
            Err(e) => e.spec_kind() == ErrorKind::InvalidInput && spec_load_failure(
                private_key@,
                public_key@,
            ) == Some(e.spec_message()),
        },
{
    if private_key.len() != 32 {
        return Err(Error::InvalidInput(String::from_str("Invalid private key size")));
    }
    if public_key.len() != 32 {
        return Err(Error::InvalidInput(String::from_str("Invalid public key size")));
    }
    let signing_key: SigningKey = SigningKey::from_bytes(&to_array::<32>(private_key));
    match VerifyingKey::from_bytes(&to_array::<32>(public_key)) {
        Ok(verifying_key) => Ok((signing_key, verifying_key)),
        Err(_) => Err(Error::InvalidInput(String::from_str("Invalid public key"))),
    }
}

/// Validates that a key pair belongs together: the public key must accept
/// what the secret key signs.
pub fn validate_keypair(signing_key: &SigningKey, verifying_key: &VerifyingKey) -> (result: Result<
    (),
>)
    ensures
        result is Ok <==> spec_keys_agree_on(
            signing_key@,
            verifying_key@,
            spec_validation_message(),
        ),
        result matches Err(e) ==> e.is(ErrorKind::CryptoError, "Keypair mismatched and invalid"@),
{
    if signs_for(signing_key, verifying_key, "VALIDATE_KEYPAIR".as_bytes()) {
        Ok(())
    } else {
        Err(Error::CryptoError(String::from_str("Keypair mismatched and invalid")))
    }
}

/// The short fingerprint of the identity whose two key files hold the given
/// bytes: the first eight bytes of the public key as hexadecimal text.
pub fn get_public_key_fingerprint_from(private_key: &[u8], public_key: &[u8]) -> (result: Result<
    String,
>)
    ensures
        match result {
            Ok(text) => spec_load_failure(private_key@, public_key@) is None && text@
                == spec_hex_encode(public_key@.subrange(0, 8)),
            Err(e) => e.spec_kind() == ErrorKind::InvalidInput && spec_load_failure(
                private_key@,
                public_key@,
            ) == Some(e.spec_message()),
        },
{
    let (_, verifying_key) = load_keys_from(private_key, public_key)?;
    let bytes: [u8; 32] = verifying_key.to_bytes();
    Ok(hex_encode(slice_subrange(bytes.as_slice(), 0, 8)))
}

} // verus!
