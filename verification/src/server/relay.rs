use crate::utils::encoding::{decimal_string, spec_decimal};
use crate::utils::error::{Error, ErrorKind, Result};
use vstd::prelude::*;
use vstd::string::StringExecFns;

verus! {

/// The side of a transfer that a peer takes.
#[derive(Debug, Clone, Copy, PartialEq, Eq, Structural)]
pub enum TransferRole {
    Sender,
    Receiver,
}

impl TransferRole {
    /// The name of the role in the first line on the socket.
    pub open spec fn spec_name(self) -> Seq<char> {
        match self {
            TransferRole::Sender => "sender"@,
            TransferRole::Receiver => "receiver"@,
        }
    }

    /// The name of the role in the first line on the socket.
    pub fn as_str(&self) -> (name: &str)
        ensures
            name@ == self.spec_name(),
    {
        match self {
            TransferRole::Sender => "sender",
            TransferRole::Receiver => "receiver",
        }
    }
}

/// What the sender posts to open a session.
#[derive(Debug)]
pub struct ServeRequest {
    pub sender_fingerprint: String,
    pub receiver_fingerprint: String,
    pub filename: String,
    pub file_size: u64,
    pub signature: String,
    pub file_hash: String,
    pub sender_ephemeral_key: String,
}

/// What the receiver posts to join a session.
#[derive(Debug)]
pub struct ListenRequest {
    pub receiver_fingerprint: String,
    pub receiver_ephemeral_key: String,
}

/// What the relay answers to the sender.
#[derive(Debug)]
pub struct ServeResponse {
    pub status: String,
    pub session_id: String,
    pub socket_port: u16,
    pub message: String,
    pub receiver_ephemeral_key: Option<String>,
}

/// What the relay answers to the receiver. Every field but `status` and
/// `message` may be missing in what came over the network.
#[derive(Debug)]
pub struct ListenResponse {
    pub status: String,
    pub session_id: Option<String>,
    pub sender_fp: Option<String>,
    pub filename: Option<String>,
    pub file_size: Option<u64>,
    pub signature: Option<String>,
    pub file_hash: Option<String>,
    pub socket_port: Option<u16>,
    pub message: String,
    pub sender_ephemeral_key: Option<String>,
    pub receiver_ephemeral_key: Option<String>,
}

/// A session as one peer sees it: the id that both peers present on the
/// socket, the role of this peer, and the metadata that the relay passed on.
/// The sender's view holds only the receiver's ephemeral key; the receiver's
/// view holds every field.
#[derive(Debug)]
pub struct TransferSession {
    pub session_id: String,
    pub role: TransferRole,
    pub filename: Option<String>,
    pub file_size: Option<u64>,
    pub signature: Option<String>,
    pub sender_fp: Option<String>,
    pub file_hash: Option<String>,
    pub sender_ephemeral_key: Option<String>,
    pub receiver_ephemeral_key: Option<String>,
}

impl TransferSession {
    /// The id of the session.
    pub open spec fn spec_session_id(&self) -> Seq<char> {
        self.session_id@
    }

    /// The role of this peer.
    pub open spec fn spec_role(&self) -> TransferRole {
        self.role
    }

    /// Whether the fields that the signature covers, and the signature and
    /// the sender, are there.
    pub open spec fn spec_complete_metadata(&self) -> bool {
        &&& self.filename is Some
        &&& self.file_size is Some
        &&& self.signature is Some
        &&& self.sender_fp is Some
        &&& self.file_hash is Some
    }

    /// Whether every field of the metadata is there, as on the receiver's
    /// view of a paired session.
    pub open spec fn spec_complete(&self) -> bool {
        &&& self.filename is Some
        &&& self.file_size is Some
        &&& self.signature is Some
        &&& self.sender_fp is Some
        &&& self.file_hash is Some
        &&& self.sender_ephemeral_key is Some
        &&& self.receiver_ephemeral_key is Some
    }

    /// A session with the given id and role and no metadata.
    pub fn new(session_id: String, role: TransferRole) -> (session: TransferSession)
        ensures
            session.spec_session_id() == session_id@,
            session.spec_role() == role,
            session.filename is None,
            session.file_size is None,
            session.signature is None,
            session.sender_fp is None,
            session.file_hash is None,
            session.sender_ephemeral_key is None,
            session.receiver_ephemeral_key is None,
    {
        TransferSession {
            session_id,
            role,
            filename: None,
            file_size: None,
            signature: None,
            sender_fp: None,
            file_hash: None,
            sender_ephemeral_key: None,
            receiver_ephemeral_key: None,
        }
    }

    /// The id of the session.
    pub fn session_id(&self) -> (id: &str)
        ensures
            id@ == self.spec_session_id(),
    {
        self.session_id.as_str()
    }

    /// The role of this peer.
    pub fn role(&self) -> (role: TransferRole)
        ensures
            role == self.spec_role(),
    {
        self.role
    }
}

/// Client of one relay.
#[derive(Debug)]
pub struct RelayClient {
    server_ip: String,
    http_port: u16,
    socket_port: u16,
}

/// The address of a service: host, colon, port in decimal.
pub open spec fn spec_address(host: Seq<char>, port: u16) -> Seq<char> {
    host + ":"@ + spec_decimal(port as nat)
}

/// The URL of a path of the relay's HTTP service.
pub open spec fn spec_url(host: Seq<char>, port: u16, path: Seq<char>) -> Seq<char> {
    "http://"@ + spec_address(host, port) + path
}

/// The text of the error for a session call that the relay answered with a
/// status outside 200 to 299.
pub open spec fn spec_refused_message(status: u16) -> Seq<char> {
    "Connection timeout or refused, Status: "@ + spec_decimal(status as nat)
}

/// The text of the error for a health call that the relay answered with a
/// status outside 200 to 299.
pub open spec fn spec_unhealthy_message(status: u16) -> Seq<char> {
    "Health API failed with status :"@ + spec_decimal(status as nat)
}

/// The first field that a listen response lacks, as the text of the error;
/// `None` where the id, the metadata, the port of the socket and both
/// ephemeral keys are there.
pub open spec fn spec_missing_field(response: ListenResponse) -> Option<Seq<char>> {
    if response.session_id is None {
        Some("Server did not return session_id"@)
    } else if response.filename is None {
        Some("Server did not return filename"@)
    } else if response.file_size is None {
        Some("Server did not return file_size"@)
    } else if response.signature is None {
        Some("Server did not return signature"@)
    } else if response.sender_fp is None {
        Some("Server did not return sender_fp"@)
    } else if response.file_hash is None {
        Some("Server did not return file_hash"@)
    } else if response.socket_port is None {
        Some("Server did not return socket_port"@)
    } else if response.sender_ephemeral_key is None {
        Some("Server did not return sender ephemeral key"@)
    } else if response.receiver_ephemeral_key is None {
        Some("Server did not return receiver ephemeral key"@)
    } else {
        None
    }
}

/// The text of the error for a response body that is no well-formed answer.
pub open spec fn spec_malformed_message() -> Seq<char> {
    "Failed to parse session response"@
}

/// Whether an HTTP status reports success: 200 to 299.
pub open spec fn spec_is_success(status: u16) -> bool {
    200 <= status < 300
}

/// The address of a service: host, colon, port in decimal.
fn address(host: &str, port: u16) -> (text: String)
    ensures
        text@ == spec_address(host@, port),
{
    String::from_str(host).concat(":").concat(decimal_string(port as u64).as_str())
}

impl RelayClient {
    /// The host of the relay.
    pub closed spec fn spec_server_ip(&self) -> Seq<char> {
        self.server_ip@
    }

    /// The port of the relay's HTTP service.
    pub closed spec fn spec_http_port(&self) -> u16 {
        self.http_port
    }

    /// The port of the relay's socket service.
    pub closed spec fn spec_socket_port(&self) -> u16 {
        self.socket_port
    }

    /// A client of the relay at `server_ip`.
    pub fn new(server_ip: String, http_port: u16, socket_port: u16) -> (client: RelayClient)
        ensures
            client.spec_server_ip() == server_ip@,
            client.spec_http_port() == http_port,
            client.spec_socket_port() == socket_port,
    {
        RelayClient { server_ip, http_port, socket_port }
    }

    /// The URL of the health check.
    pub fn health_url(&self) -> (url: String)
        ensures
            url@ == spec_url(self.spec_server_ip(), self.spec_http_port(), "/actuator/health"@),
    {
        let url: String = String::from_str("http://").concat(
            address(self.server_ip.as_str(), self.http_port).as_str(),
        ).concat("/actuator/health");
        url
    }

    /// The URL to which the sender posts its request.
    pub fn serve_url(&self) -> (url: String)
        ensures
            url@ == spec_url(self.spec_server_ip(), self.spec_http_port(), "/api/relay/serve"@),
    {
        let url: String = String::from_str("http://").concat(
            address(self.server_ip.as_str(), self.http_port).as_str(),
        ).concat("/api/relay/serve");
        url
    }

    /// The URL to which the receiver posts its request.
    pub fn listen_url(&self) -> (url: String)
        ensures
            url@ == spec_url(self.spec_server_ip(), self.spec_http_port(), "/api/relay/listen"@),
    {
        let url: String = String::from_str("http://").concat(
            address(self.server_ip.as_str(), self.http_port).as_str(),
        ).concat("/api/relay/listen");
        url
    }

    /// The address of the relay's socket service.
    pub fn socket_address(&self) -> (text: String)
        ensures
            text@ == spec_address(self.spec_server_ip(), self.spec_socket_port()),
    {
        address(self.server_ip.as_str(), self.socket_port)
    }

    /// Judges the answer to the health check by its status: 200 to 299 is
    /// healthy.
    pub fn check_health(status: u16) -> (result: Result<()>)
        ensures
            result is Ok <==> spec_is_success(status),
            result matches Err(e) ==> e.is(ErrorKind::NetworkError, spec_unhealthy_message(status)),
    {
        if 200 <= status && status < 300 {
            Ok(())
        } else {
            Err(
                Error::NetworkError(
                    String::from_str("Health API failed with status :").concat(
                        decimal_string(status as u64).as_str(),
                    ),
                ),
            )
        }
    }

    /// Judges the answer to a serve or listen request by its status: outside
    /// 200 to 299 the relay has refused.
    pub fn check_status(status: u16) -> (result: Result<()>)
        ensures
            result is Ok <==> spec_is_success(status),
            result matches Err(e) ==> e.is(ErrorKind::NetworkError, spec_refused_message(status)),
    {
        if 200 <= status && status < 300 {
            Ok(())
        } else {
            Err(
                Error::NetworkError(
                    String::from_str("Connection timeout or refused, Status: ").concat(
                        decimal_string(status as u64).as_str(),
                    ),
                ),
            )
        }
    }

    /// The error for a response body that is no well-formed answer.
    pub fn malformed_response() -> (error: Error)
        ensures
            error.is(ErrorKind::SessionError, spec_malformed_message()),
    {
        Error::SessionError(String::from_str("Failed to parse session response"))
    }

    /// The request that announces a file to the relay.
    pub fn serve_request(
        sender_fingerprint: String,
        receiver_fingerprint: String,
        filename: String,
        file_size: u64,
        signature: String,
        file_hash: String,
        sender_ephemeral_key: String,
    ) -> (request: ServeRequest)
        ensures
            request.sender_fingerprint@ == sender_fingerprint@,
            request.receiver_fingerprint@ == receiver_fingerprint@,
            request.filename@ == filename@,
            request.file_size == file_size,
            request.signature@ == signature@,
            request.file_hash@ == file_hash@,
            request.sender_ephemeral_key@ == sender_ephemeral_key@,
    {
        ServeRequest {
            sender_fingerprint,
            receiver_fingerprint,
            filename,
            file_size,
            signature,
            file_hash,
            sender_ephemeral_key,
        }
    }

    /// The request with which the receiver joins.
    pub fn listen_request(receiver_fingerprint: String, receiver_ephemeral_key: String) -> (request:
        ListenRequest)
        ensures
            request.receiver_fingerprint@ == receiver_fingerprint@,
            request.receiver_ephemeral_key@ == receiver_ephemeral_key@,
    {
        ListenRequest { receiver_fingerprint, receiver_ephemeral_key }
    }

    /// Opens the sender's session from the relay's answer to the serve
    /// request: its status, and its body where that was a well-formed
    /// answer. A status outside 200 to 299 is a refusal, whatever the body
    /// holds; a body that is no answer cannot be used.
    pub fn answer_to_serve(status: u16, body: Option<ServeResponse>) -> (result: Result<
        TransferSession,
    >)
        ensures
            match result {
                Ok(session) => {
                    &&& spec_is_success(status)
                    &&& body matches Some(response)
                    &&& session.spec_session_id() == response.session_id@
                    &&& session.spec_role() == TransferRole::Sender
                    &&& session.receiver_ephemeral_key == response.receiver_ephemeral_key
                    &&& session.filename is None
                    &&& session.file_size is None
                    &&& session.signature is None
                    &&& session.sender_fp is None
                    &&& session.file_hash is None
                    &&& session.sender_ephemeral_key is None
                },
                Err(e) => if !spec_is_success(status) {
                    e.is(ErrorKind::NetworkError, spec_refused_message(status))
                } else {
                    body is None && e.is(ErrorKind::SessionError, spec_malformed_message())
                },
            },
    {
        Self::check_status(status)?;
        match body {
            Some(response) => Ok(Self::session_from_serve(response)),
            None => Err(Self::malformed_response()),
        }
    }

    /// Opens the receiver's session from the relay's answer to the listen
    /// request: its status, and its body where that was a well-formed
    /// answer. A status outside 200 to 299 is a refusal, whatever the body
    /// holds; a body that is no answer cannot be used; and every field of
    /// the metadata must be there.
    pub fn answer_to_listen(status: u16, body: Option<ListenResponse>) -> (result: Result<
        TransferSession,
    >)
        ensures
            match result {
                Ok(session) => {
                    &&& spec_is_success(status)
                    &&& body matches Some(response)
                    &&& spec_missing_field(response) is None
                    &&& session.spec_complete()
                    &&& response.session_id matches Some(id)
                    &&& session.spec_session_id() == id@
                    &&& session.spec_role() == TransferRole::Receiver
                    &&& session.filename == response.filename
                    &&& session.file_size == response.file_size
                    &&& session.signature == response.signature
                    &&& session.sender_fp == response.sender_fp
                    &&& session.file_hash == response.file_hash
                    &&& session.sender_ephemeral_key == response.sender_ephemeral_key
                    &&& session.receiver_ephemeral_key == response.receiver_ephemeral_key
                },
                Err(e) => if !spec_is_success(status) {
                    e.is(ErrorKind::NetworkError, spec_refused_message(status))
                } else {
                    match body {
                        None => e.is(ErrorKind::SessionError, spec_malformed_message()),
                        Some(response) => e.spec_kind() == ErrorKind::SessionError
                            && spec_missing_field(response) == Some(e.spec_message()),
                    }
                },
            },
    {
        Self::check_status(status)?;
        match body {
            Some(response) => Self::session_from_listen(response),
            None => Err(Self::malformed_response()),
        }
    }

    /// The sender's view of the session that the relay has created: the id,
    /// and the receiver's ephemeral key where the relay knows it already.
    pub fn session_from_serve(response: ServeResponse) -> (session: TransferSession)
        ensures
            session.spec_session_id() == response.session_id@,
            session.spec_role() == TransferRole::Sender,
            session.receiver_ephemeral_key == response.receiver_ephemeral_key,
            session.filename is None,
            session.file_size is None,
            session.signature is None,
            session.sender_fp is None,
            session.file_hash is None,
            session.sender_ephemeral_key is None,
    {
        TransferSession {
            session_id: response.session_id,
            role: TransferRole::Sender,
            filename: None,
            file_size: None,
            signature: None,
            sender_fp: None,
            file_hash: None,
            sender_ephemeral_key: None,
            receiver_ephemeral_key: response.receiver_ephemeral_key,
        }
    }

    /// The receiver's view of the paired session. Every field of the answer
    /// but `status` and `message` must be there, the port of the socket
    /// too; the first one that is missing is reported.
    pub fn session_from_listen(response: ListenResponse) -> (result: Result<TransferSession>)
        ensures
            match result {
                Ok(session) => {
                    &&& spec_missing_field(response) is None
                    &&& session.spec_complete()
                    &&& response.session_id matches Some(id)
                    &&& session.spec_session_id() == id@
                    &&& session.spec_role() == TransferRole::Receiver
                    &&& session.filename == response.filename
                    &&& session.file_size == response.file_size
                    &&& session.signature == response.signature
                    &&& session.sender_fp == response.sender_fp
                    &&& session.file_hash == response.file_hash
                    &&& session.sender_ephemeral_key == response.sender_ephemeral_key
                    &&& session.receiver_ephemeral_key == response.receiver_ephemeral_key
                },
                Err(e) => e.spec_kind() == ErrorKind::SessionError && spec_missing_field(
                    response,
                ) == Some(e.spec_message()),
            },
    {
        let session_id: String = match response.session_id {
            Some(id) => id,
            None => {
                return Err(
                    Error::SessionError(String::from_str("Server did not return session_id")),
                );
            },
        };
        if response.filename.is_none() {
            return Err(Error::SessionError(String::from_str("Server did not return filename")));
        }
        if response.file_size.is_none() {
            return Err(Error::SessionError(String::from_str("Server did not return file_size")));
        }
        if response.signature.is_none() {
            return Err(Error::SessionError(String::from_str("Server did not return signature")));
        }
        if response.sender_fp.is_none() {
            return Err(Error::SessionError(String::from_str("Server did not return sender_fp")));
        }
        if response.file_hash.is_none() {
            return Err(Error::SessionError(String::from_str("Server did not return file_hash")));
        }
        if response.socket_port.is_none() {
            return Err(
                Error::SessionError(String::from_str("Server did not return socket_port")),
            );
        }
        if response.sender_ephemeral_key.is_none() {
            return Err(
                Error::SessionError(
                    String::from_str("Server did not return sender ephemeral key"),
                ),
            );
        }
        if response.receiver_ephemeral_key.is_none() {
            return Err(
                Error::SessionError(
                    String::from_str("Server did not return receiver ephemeral key"),
                ),
            );
        }
        Ok(
            TransferSession {
                session_id,
                role: TransferRole::Receiver,
                filename: response.filename,
                file_size: response.file_size,
                signature: response.signature,
                sender_fp: response.sender_fp,
                file_hash: response.file_hash,
                sender_ephemeral_key: response.sender_ephemeral_key,
                receiver_ephemeral_key: response.receiver_ephemeral_key,
            },
        )
    }
}

} // verus!
