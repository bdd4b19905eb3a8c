//! The cryptographic envelope: chunk encryption, key agreement and
//! signatures.

pub mod encryption;
pub mod key_exchange;
pub mod random;
pub mod signing;
