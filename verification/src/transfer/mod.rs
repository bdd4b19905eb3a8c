//! The streaming transfer engine: the signed metadata envelope, the framing
//! of encrypted chunks, and the decisions of sender and receiver.

pub mod envelope;
pub mod framing;
pub mod receiver;
pub mod sender;
pub mod stream;
