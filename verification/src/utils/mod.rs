//! Errors, encodings and hashing.

pub mod encoding;
pub mod error;
pub mod hash;
