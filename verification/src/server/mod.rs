//! The client side of the relay: the HTTP calls that open a session and the
//! handshake on the paired socket.

pub mod handshake;
pub mod relay;

pub use handshake::{Handshake, HandshakeAction, HandshakeEvent, HandshakePhase};
pub use relay::{
    ListenRequest, ListenResponse, RelayClient, ServeRequest, ServeResponse, TransferRole,
    TransferSession,
};
