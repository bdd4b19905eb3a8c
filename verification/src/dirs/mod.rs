//! What a party keeps between transfers: the list of relays, the trusted
//! contacts and the identity keys.

pub mod config;
pub mod contacts;
pub mod keys;
