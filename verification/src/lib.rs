//! Peer-to-peer file transfer through an untrusted relay: the session
//! protocol, the cryptographic envelope and the streaming transfer engine.

pub mod config;
pub mod crypto;
pub mod dirs;
pub mod server;
pub mod transfer;
pub mod utils;
