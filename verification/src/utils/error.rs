use vstd::prelude::*;
use vstd::string::StringExecFns;

verus! {

/// What can go wrong during a transfer.
#[derive(Debug)]
pub enum Error {
    FileError(String),
    NetworkError(String),
    CryptoError(String),
    InvalidInput(String),
    ConfigError(String),
    SessionError(String),
    UnknownIssue(String),
}

/// The class of an [`Error`], without its message.
#[derive(Debug, Clone, Copy, PartialEq, Eq, Structural)]
pub enum ErrorKind {
    FileError,
    NetworkError,
    CryptoError,
    InvalidInput,
    ConfigError,
    SessionError,
    UnknownIssue,
}

/// The class of an operating-system I/O failure, as far as the transfer
/// distinguishes it.
#[derive(Debug, Clone, Copy, PartialEq, Eq, Structural)]
pub enum IoFailure {
    NotFound,
    PermissionDenied,
    Other,
}

/// Custom result type.
pub type Result<T> = std::result::Result<T, Error>;

impl Error {
    /// The class of the error.
    pub open spec fn spec_kind(self) -> ErrorKind {
        match self {
            Error::FileError(_) => ErrorKind::FileError,
            Error::NetworkError(_) => ErrorKind::NetworkError,
            Error::CryptoError(_) => ErrorKind::CryptoError,
            Error::InvalidInput(_) => ErrorKind::InvalidInput,
            Error::ConfigError(_) => ErrorKind::ConfigError,
            Error::SessionError(_) => ErrorKind::SessionError,
            Error::UnknownIssue(_) => ErrorKind::UnknownIssue,
        }
    }

    /// The text of the error.
    pub open spec fn spec_message(self) -> Seq<char> {
        match self {
            Error::FileError(m) => m@,
            Error::NetworkError(m) => m@,
            Error::CryptoError(m) => m@,
            Error::InvalidInput(m) => m@,
            Error::ConfigError(m) => m@,
            Error::SessionError(m) => m@,
            Error::UnknownIssue(m) => m@,
        }
    }

    /// Whether the error has the given class and text.
    pub open spec fn is(self, kind: ErrorKind, message: Seq<char>) -> bool {
        self.spec_kind() == kind && self.spec_message() == message
    }

    /// The heading under which a class of errors is shown.
    pub open spec fn spec_heading(kind: ErrorKind) -> Seq<char> {
        match kind {
            ErrorKind::FileError => "File Error: "@,
            ErrorKind::NetworkError => "Network Error: "@,
            ErrorKind::CryptoError => "Cryptography Error: "@,
            ErrorKind::InvalidInput => "Invalid Input: "@,
            ErrorKind::ConfigError => "Configuration Error: "@,
            ErrorKind::SessionError => "Session Error: "@,
            ErrorKind::UnknownIssue => "Unknown Issue: "@,
        }
    }

    /// The class of the error.
    pub fn kind(&self) -> (kind: ErrorKind)
        ensures
            kind == self.spec_kind(),
    {
        match self {
            Error::FileError(_) => ErrorKind::FileError,
            Error::NetworkError(_) => ErrorKind::NetworkError,
            Error::CryptoError(_) => ErrorKind::CryptoError,
            Error::InvalidInput(_) => ErrorKind::InvalidInput,
            Error::ConfigError(_) => ErrorKind::ConfigError,
            Error::SessionError(_) => ErrorKind::SessionError,
            Error::UnknownIssue(_) => ErrorKind::UnknownIssue,
        }
    }

    /// The text of the error.
    pub fn message(&self) -> (message: &str)
        ensures
            message@ == self.spec_message(),
    {
        match self {
            Error::FileError(m) => m.as_str(),
            Error::NetworkError(m) => m.as_str(),
            Error::CryptoError(m) => m.as_str(),
            Error::InvalidInput(m) => m.as_str(),
            Error::ConfigError(m) => m.as_str(),
            Error::SessionError(m) => m.as_str(),
            Error::UnknownIssue(m) => m.as_str(),
        }
    }

    /// The line shown to the user: the heading of the class, then the text.
    pub fn describe(&self) -> (line: String)
        ensures
            line@ == Self::spec_heading(self.spec_kind()) + self.spec_message(),
    {
        let heading: &str = match self {
            Error::FileError(_) => "File Error: ",
            Error::NetworkError(_) => "Network Error: ",
            Error::CryptoError(_) => "Cryptography Error: ",
            Error::InvalidInput(_) => "Invalid Input: ",
            Error::ConfigError(_) => "Configuration Error: ",
            Error::SessionError(_) => "Session Error: ",
            Error::UnknownIssue(_) => "Unknown Issue: ",
        };
        String::from_str(heading).concat(self.message())
    }

    /// Normalises an I/O failure: a missing file or a refused permission is a
    /// file error, everything else a network error. The text is kept.
    pub fn from_io(failure: IoFailure, message: String) -> (error: Error)
        ensures
            error.spec_message() == message@,
            error.spec_kind() == (match failure {
                IoFailure::NotFound => ErrorKind::FileError,
                IoFailure::PermissionDenied => ErrorKind::FileError,
                IoFailure::Other => ErrorKind::NetworkError,
            }),
    {
        match failure {
            IoFailure::NotFound => Error::FileError(message),
            IoFailure::PermissionDenied => Error::FileError(message),
            IoFailure::Other => Error::NetworkError(message),
        }
    }
}

} // verus!
