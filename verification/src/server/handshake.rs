use crate::config::constants::{
    ack_signal, spec_ack_signal, spec_ready_signal, BUFFER_SIZE, MAX_DONE_WAIT_MILLIS,
};
use crate::server::relay::{spec_address, RelayClient, TransferRole};
use crate::utils::encoding::same_bytes;
use crate::utils::error::{Error, ErrorKind};
use vstd::prelude::*;
use vstd::string::StringExecFns;
use vstd::utf8::encode_utf8;

verus! {

/// The text that `String::from_utf8_lossy` makes of a byte string.
pub uninterp spec fn spec_utf8_lossy(bytes: Seq<u8>) -> Seq<char>;

/// The text that `str::trim` leaves of a text.
pub uninterp spec fn spec_trim(text: Seq<char>) -> Seq<char>;

/// How far the handshake on the socket has come.
#[derive(Debug, Clone, Copy, PartialEq, Eq, Structural)]
pub enum HandshakePhase {
    /// Nothing has happened yet.
    Idle,
    /// The socket is being configured and connected.
    Connecting,
    /// The first line is being written.
    Greeting,
    /// The relay's `READY` is awaited: it comes once both peers are there.
    AwaitingReady,
    /// The acknowledgement is being written.
    Acknowledging,
    /// The relay is given time to start forwarding.
    Settling,
    /// The socket is paired: what is written now reaches the peer.
    Paired,
    /// The handshake has failed.
    Failed,
}

/// The step of connecting that failed.
#[derive(Debug, Clone, Copy, PartialEq, Eq, Structural)]
pub enum ConnectFailure {
    /// The address is no socket address.
    Address,
    /// No socket could be created.
    Socket,
    /// `TCP_NODELAY` could not be set.
    NoDelay,
    /// The send buffer could not be sized.
    SendBuffer,
    /// The receive buffer could not be sized.
    ReceiveBuffer,
    /// The relay could not be reached.
    Connect,
}

/// What has happened on the socket since the last action.
#[derive(Debug)]
pub enum HandshakeEvent {
    /// The handshake is to begin.
    Start,
    /// The socket is connected.
    Connected,
    /// Connecting has failed at the given step.
    ConnectFailed(ConnectFailure),
    /// What was to be written is written.
    Written,
    /// The bytes that were to be read are read.
    Read(Vec<u8>),
    /// Writing or reading has failed.
    Failed,
    /// The pause is over.
    Slept,
}

/// What is to be done on the socket next.
#[derive(Debug)]
pub enum HandshakeAction {
    /// Create a socket, set `TCP_NODELAY` as `nodelay` says, size its send
    /// and receive buffers to `buffer_size` bytes, and connect it to
    /// `address`.
    Connect { address: String, nodelay: bool, buffer_size: u32 },
    /// Write all of these bytes.
    Write(Vec<u8>),
    /// Read exactly this many bytes.
    ReadExact(usize),
    /// Pause for this many milliseconds.
    Sleep(u64),
    /// The handshake is complete.
    Done,
    /// The handshake has failed with this error.
    Fail(Error),
}

/// The handshake of one peer on the socket of the relay.
#[derive(Debug)]
pub struct Handshake {
    phase: HandshakePhase,
    address: String,
    session_id: String,
    role: TransferRole,
}

/// The first line on the socket: session id, colon, role, newline.
pub open spec fn spec_greeting(session_id: Seq<char>, role: TransferRole) -> Seq<u8> {
    encode_utf8(session_id) + seq![58u8] + encode_utf8(role.spec_name()) + seq![10u8]
}

/// The text of the error for a failed step of connecting.
pub open spec fn spec_connect_failure_message(failure: ConnectFailure, address: Seq<char>) -> Seq<
    char,
> {
    match failure {
        ConnectFailure::Address => "Invalid socket address: "@ + address,
        ConnectFailure::Socket => "Failed to connect to socket server: "@ + address,
        ConnectFailure::NoDelay => "Failed to set TCP_NODELAY"@,
        ConnectFailure::SendBuffer => "Failed to set send buffer"@,
        ConnectFailure::ReceiveBuffer => "Failed to set recv buffer"@,
        ConnectFailure::Connect => "Failed to connect to socket server"@,
    }
}

/// The text of the error for a failed write or read in a phase.
pub open spec fn spec_io_failure_message(phase: HandshakePhase) -> Seq<char> {
    match phase {
        HandshakePhase::Greeting => "Failed to send handshake"@,
        HandshakePhase::AwaitingReady => "Failed to read READY signal"@,
        HandshakePhase::Acknowledging => "Failed to send ACK"@,
        _ => "Handshake out of order"@,
    }
}

/// The text of the error for bytes that are not `READY`.
pub open spec fn spec_not_ready_message(bytes: Seq<u8>) -> Seq<char> {
    "Expected READY signal, got: "@ + spec_trim(spec_utf8_lossy(bytes))
}

/// The text of `bytes`, with a replacement character for what is no UTF-8.
///
/// Trusted: calls `String::from_utf8_lossy` of std.
#[verifier::external_body]
fn utf8_lossy(bytes: &[u8]) -> (text: String)
    ensures
        text@ == spec_utf8_lossy(bytes@),
{
    String::from_utf8_lossy(bytes).into_owned()
}

/// `text` without white space at either end.
///
/// Trusted: calls `str::trim` of std.
#[verifier::external_body]
fn trimmed(text: &str) -> (inner: String)
    ensures
        inner@ == spec_trim(text@),
{
    text.trim().to_owned()
}

impl Handshake {
    /// How far the handshake has come.
    pub closed spec fn spec_phase(&self) -> HandshakePhase {
        self.phase
    }

    /// The address of the relay's socket service.
    pub closed spec fn spec_socket_address(&self) -> Seq<char> {
        self.address@
    }

    /// The first line that this peer writes.
    pub closed spec fn spec_first_line(&self) -> Seq<u8> {
        spec_greeting(self.session_id@, self.role)
    }

    /// What follows an event in a phase: the next phase, and whether the
    /// action fits it. A failure leads to `Failed` from every phase; any
    /// event that the phase does not await is a failure too.
    pub open spec fn spec_follows(
        before: Handshake,
        event: HandshakeEvent,
        after: Handshake,
        action: HandshakeAction,
    ) -> bool {
        &&& after.spec_socket_address() == before.spec_socket_address()
        &&& after.spec_first_line() == before.spec_first_line()
        &&& match (before.spec_phase(), event) {
            (HandshakePhase::Idle, HandshakeEvent::Start) => {
                &&& after.spec_phase() == HandshakePhase::Connecting
                &&& action matches HandshakeAction::Connect { address, nodelay, buffer_size }
                &&& address@ == before.spec_socket_address()
                &&& nodelay
                &&& buffer_size == BUFFER_SIZE
            },
            (HandshakePhase::Connecting, HandshakeEvent::Connected) => {
                &&& after.spec_phase() == HandshakePhase::Greeting
                &&& action matches HandshakeAction::Write(line)
                &&& line@ == before.spec_first_line()
            },
            (HandshakePhase::Connecting, HandshakeEvent::ConnectFailed(failure)) => {
                &&& after.spec_phase() == HandshakePhase::Failed
                &&& action matches HandshakeAction::Fail(e)
                &&& e.is(
                    ErrorKind::NetworkError,
                    spec_connect_failure_message(failure, before.spec_socket_address()),
                )
            },
            (HandshakePhase::Greeting, HandshakeEvent::Written) => {
                &&& after.spec_phase() == HandshakePhase::AwaitingReady
                &&& action matches HandshakeAction::ReadExact(len)
                &&& len == 6
            },
            (HandshakePhase::AwaitingReady, HandshakeEvent::Read(bytes)) => {
                if bytes@ == spec_ready_signal() {
                    &&& after.spec_phase() == HandshakePhase::Acknowledging
                    &&& action matches HandshakeAction::Write(ack)
                    &&& ack@ == spec_ack_signal()
                } else {
                    &&& after.spec_phase() == HandshakePhase::Failed
                    &&& action matches HandshakeAction::Fail(e)
                    &&& e.is(ErrorKind::NetworkError, spec_not_ready_message(bytes@))
                }
            },
            (HandshakePhase::Acknowledging, HandshakeEvent::Written) => {
                &&& after.spec_phase() == HandshakePhase::Settling
                &&& action matches HandshakeAction::Sleep(millis)
                &&& millis == MAX_DONE_WAIT_MILLIS
            },
            (HandshakePhase::Settling, HandshakeEvent::Slept) => {
                &&& after.spec_phase() == HandshakePhase::Paired
                &&& action is Done
            },
            (phase, _) => {
                &&& after.spec_phase() == HandshakePhase::Failed
                &&& action matches HandshakeAction::Fail(e)
                &&& e.is(ErrorKind::NetworkError, spec_io_failure_message(phase))
            },
        }
    }

    /// The handshake of a peer with the given role in the given session, on
    /// the socket service of `client`.
    pub fn new(client: &RelayClient, session_id: &str, role: TransferRole) -> (handshake: Handshake)
        ensures
            handshake.spec_phase() == HandshakePhase::Idle,
            handshake.spec_socket_address() == spec_address(
                client.spec_server_ip(),
                client.spec_socket_port(),
            ),
            handshake.spec_first_line() == spec_greeting(session_id@, role),
    {
        Handshake {
            phase: HandshakePhase::Idle,
            address: client.socket_address(),
            session_id: String::from_str(session_id),
            role,
        }
    }

    /// How far the handshake has come.
    pub fn phase(&self) -> (phase: HandshakePhase)
        ensures
            phase == self.spec_phase(),
    {
        self.phase
    }

    /// The first line: session id, colon, role, newline.
    fn first_line(&self) -> (line: Vec<u8>)
        ensures
            line@ == self.spec_first_line(),
    {
        let mut line: Vec<u8> = Vec::new();
        line.extend_from_slice(self.session_id.as_str().as_bytes());
        line.push(58u8);
        line.extend_from_slice(self.role.as_str().as_bytes());
        line.push(10u8);
        assert(line@ =~= self.spec_first_line());
        line
    }

    /// The failure of a phase.
    fn fail(&mut self, message: String) -> (action: HandshakeAction)
        ensures
            final(self).spec_phase() == HandshakePhase::Failed,
            final(self).spec_socket_address() == old(self).spec_socket_address(),
            final(self).spec_first_line() == old(self).spec_first_line(),
            action matches HandshakeAction::Fail(e) && e.is(ErrorKind::NetworkError, message@),
    {
        self.phase = HandshakePhase::Failed;
        HandshakeAction::Fail(Error::NetworkError(message))
    }

    /// The failure of a write or a read, or of an event out of order.
    fn fail_io(&mut self) -> (action: HandshakeAction)
        ensures
            final(self).spec_phase() == HandshakePhase::Failed,
            final(self).spec_socket_address() == old(self).spec_socket_address(),
            final(self).spec_first_line() == old(self).spec_first_line(),
            action matches HandshakeAction::Fail(e) && e.is(
                ErrorKind::NetworkError,
                spec_io_failure_message(old(self).spec_phase()),
            ),
    {
        let message: &str = match self.phase {
            HandshakePhase::Greeting => "Failed to send handshake",
            HandshakePhase::AwaitingReady => "Failed to read READY signal",
            HandshakePhase::Acknowledging => "Failed to send ACK",
            _ => "Handshake out of order",
        };
        self.fail(String::from_str(message))
    }

    /// Takes the handshake one step further: from what has happened on the
    /// socket to what is to be done next.
    ///
    /// The order is fixed: connect, write the first line, read `READY`, write
    /// `ACK`, pause, done. The acknowledgement is written only after `READY`
    /// has come, and the handshake is complete only after the pause.
    pub fn step(&mut self, event: HandshakeEvent) -> (action: HandshakeAction)
        ensures
            Self::spec_follows(*old(self), event, *final(self), action),
    {
        match event {
            HandshakeEvent::Start => {
                if self.phase == HandshakePhase::Idle {
                    self.phase = HandshakePhase::Connecting;
                    HandshakeAction::Connect {
                        address: self.address.clone(),
                        nodelay: true,
                        buffer_size: BUFFER_SIZE as u32,
                    }
                } else {
                    self.fail_io()
                }
            },
            HandshakeEvent::Connected => {
                if self.phase == HandshakePhase::Connecting {
                    self.phase = HandshakePhase::Greeting;
                    HandshakeAction::Write(self.first_line())
                } else {
                    self.fail_io()
                }
            },
            HandshakeEvent::ConnectFailed(failure) => {
                if self.phase == HandshakePhase::Connecting {
                    let message: String = match failure {
                        ConnectFailure::Address => String::from_str(
                            "Invalid socket address: ",
                        ).concat(self.address.as_str()),
                        ConnectFailure::Socket => String::from_str(
                            "Failed to connect to socket server: ",
                        ).concat(self.address.as_str()),
                        ConnectFailure::NoDelay => String::from_str("Failed to set TCP_NODELAY"),
                        ConnectFailure::SendBuffer => String::from_str("Failed to set send buffer"),
                        ConnectFailure::ReceiveBuffer => String::from_str(
                            "Failed to set recv buffer",
                        ),
                        ConnectFailure::Connect => String::from_str(
                            "Failed to connect to socket server",
                        ),
                    };
                    self.fail(message)
                } else {
                    self.fail_io()
                }
            },
            HandshakeEvent::Written => {
                if self.phase == HandshakePhase::Greeting {
                    self.phase = HandshakePhase::AwaitingReady;
                    HandshakeAction::ReadExact(6)
                } else if self.phase == HandshakePhase::Acknowledging {
                    self.phase = HandshakePhase::Settling;
                    HandshakeAction::Sleep(MAX_DONE_WAIT_MILLIS)
                } else {
                    self.fail_io()
                }
            },
            HandshakeEvent::Read(bytes) => {
                if self.phase == HandshakePhase::AwaitingReady {
                    let ready: Vec<u8> = crate::config::constants::ready_signal();
                    if same_bytes(bytes.as_slice(), ready.as_slice()) {
                        self.phase = HandshakePhase::Acknowledging;
                        HandshakeAction::Write(ack_signal())
                    } else {
                        let shown: String = trimmed(utf8_lossy(bytes.as_slice()).as_str());
                        self.fail(
                            String::from_str("Expected READY signal, got: ").concat(
                                shown.as_str(),
                            ),
                        )
                    }
                } else {
                    self.fail_io()
                }
            },
            HandshakeEvent::Failed => self.fail_io(),
            HandshakeEvent::Slept => {
                if self.phase == HandshakePhase::Settling {
                    self.phase = HandshakePhase::Paired;
                    HandshakeAction::Done
                } else {
                    self.fail_io()
                }
            },
        }
    }
}

} // verus!
