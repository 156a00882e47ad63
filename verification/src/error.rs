//! The broker's errors.

use crate::codec::parse;
use crate::codec::parse::Rejection;
use crate::codec::types::EncodeError;
use rmqtt_codec::error::DecodeError;
use vstd::prelude::*;
use vstd::string::StringExecFns;

verus! {

/// The kinds of transport failure, as the operating system tells them apart.
#[derive(Debug, Clone, Copy, PartialEq, Eq, Structural)]
pub enum IoErrorKind {
    NotFound,
    PermissionDenied,
    ConnectionRefused,
    ConnectionReset,
    HostUnreachable,
    NetworkUnreachable,
    ConnectionAborted,
    NotConnected,
    AddrInUse,
    AddrNotAvailable,
    NetworkDown,
    BrokenPipe,
    AlreadyExists,
    WouldBlock,
    NotADirectory,
    IsADirectory,
    DirectoryNotEmpty,
    ReadOnlyFilesystem,
    StaleNetworkFileHandle,
    InvalidInput,
    InvalidData,
    TimedOut,
    WriteZero,
    StorageFull,
    NotSeekable,
    QuotaExceeded,
    FileTooLarge,
    ResourceBusy,
    ExecutableFileBusy,
    Deadlock,
    CrossesDevices,
    TooManyLinks,
    InvalidFilename,
    ArgumentListTooLong,
    Interrupted,
    Unsupported,
    UnexpectedEof,
    OutOfMemory,
    Other,
}

/// A failed read or write: the transport failed, or the bytes that it carried
/// were rejected. Both can be of the kind `InvalidData`, so the two are told
/// apart by variant and not by kind.
#[derive(Debug)]
pub enum IoError {
    Transport { kind: IoErrorKind, message: String },
    Rejected(Rejection),
}

impl IoError {
    /// The kind of the failure.
    pub open spec fn kind_spec(&self) -> IoErrorKind {
        match self {
            IoError::Transport { kind, .. } => *kind,
            IoError::Rejected(_) => IoErrorKind::InvalidData,
        }
    }

    /// The kind of the failure.
    pub fn kind(&self) -> (r: IoErrorKind)
        ensures
            r == self.kind_spec(),
    {
        match self {
            IoError::Transport { kind, .. } => *kind,
            IoError::Rejected(_) => IoErrorKind::InvalidData,
        }
    }

    /// A reset or a broken pipe: the client is gone, as clients go.
    pub open spec fn routine(&self) -> bool {
        self.kind_spec() == IoErrorKind::ConnectionReset || self.kind_spec()
            == IoErrorKind::BrokenPipe
    }

    /// Whether the failure is the routine end of a client.
    pub fn is_routine(&self) -> (r: bool)
        ensures
            r == self.routine(),
    {
        matches!(self.kind(), IoErrorKind::ConnectionReset | IoErrorKind::BrokenPipe)
    }
}

/// What ends a session, a worker, or a start.
#[derive(Debug)]
pub enum Error {
    Io(IoError),
    Decode(DecodeError),
    Encode(EncodeError),
    Timeout,
    ClientClosed,
    Protocol(String),
    Worker(String),
}

impl From<IoError> for Error {
    fn from(e: IoError) -> (r: Error) {
        Error::Io(e)
    }
}

impl vstd::std_specs::convert::FromSpecImpl<IoError> for Error {
    open spec fn obeys_from_spec() -> bool {
        true
    }

    open spec fn from_spec(e: IoError) -> Error {
        Error::Io(e)
    }
}

impl From<DecodeError> for Error {
    fn from(e: DecodeError) -> (r: Error) {
        Error::Decode(e)
    }
}

impl vstd::std_specs::convert::FromSpecImpl<DecodeError> for Error {
    open spec fn obeys_from_spec() -> bool {
        true
    }

    open spec fn from_spec(e: DecodeError) -> Error {
        Error::Decode(e)
    }
}

impl From<EncodeError> for Error {
    fn from(e: EncodeError) -> (r: Error) {
        Error::Encode(e)
    }
}

impl vstd::std_specs::convert::FromSpecImpl<EncodeError> for Error {
    open spec fn obeys_from_spec() -> bool {
        true
    }

    open spec fn from_spec(e: EncodeError) -> Error {
        Error::Encode(e)
    }
}

impl Error {
    /// A client that went away in a way clients do: silence past a deadline, a
    /// close, a reset, a broken pipe.
    pub open spec fn routine(&self) -> bool {
        match self {
            Error::Timeout => true,
            Error::ClientClosed => true,
            Error::Io(e) => e.routine(),
            _ => false,
        }
    }

    /// Whether the cause is a routine client-side disconnect, which is worth no
    /// log line. Goes by variant and kind, never by message.
    pub fn is_routine_disconnect(&self) -> (r: bool)
        ensures
            r == self.routine(),
    {
        match self {
            Error::Timeout | Error::ClientClosed => true,
            Error::Io(e) => e.is_routine(),
            Error::Decode(_) | Error::Encode(_) | Error::Protocol(_) | Error::Worker(_) => false,
        }
    }

    /// Whether `text` is the error in words. What a codec says stands behind the
    /// prefix as it says it.
    pub open spec fn said_as(&self, text: Seq<char>) -> bool {
        match self {
            Error::Io(IoError::Transport { message, .. }) => text == "I/O error: "@ + message@,
            Error::Io(IoError::Rejected(rejection)) => text == "I/O error: "@ + rejection.text@,
            Error::Decode(e) => text == "MQTT decode error: "@ + parse::words(*e),
            Error::Encode(e) => text == "MQTT encode error: "@ + e.text(),
            Error::Timeout => text == "Connection timeout"@,
            Error::ClientClosed => text == "Client closed connection during handshake"@,
            Error::Protocol(detail) => text == "Protocol error: "@ + detail@,
            Error::Worker(detail) => text == "Worker error: "@ + detail@,
        }
    }

    /// The error in words.
    pub fn message(&self) -> (r: String)
        ensures
            self.said_as(r@),
    {
        match self {
            Error::Io(IoError::Transport { message, .. }) => joined("I/O error: ", message.as_str()),
            Error::Io(IoError::Rejected(rejection)) => joined(
                "I/O error: ",
                rejection.text.as_str(),
            ),
            Error::Decode(e) => joined("MQTT decode error: ", parse::words_of(e).as_str()),
            Error::Encode(e) => joined("MQTT encode error: ", e.message().as_str()),
            Error::Timeout => "Connection timeout".to_owned(),
            Error::ClientClosed => "Client closed connection during handshake".to_owned(),
            Error::Protocol(detail) => joined("Protocol error: ", detail.as_str()),
            Error::Worker(detail) => joined("Worker error: ", detail.as_str()),
        }
    }
}

/// A prefix and what stands behind it.
fn joined(prefix: &str, rest: &str) -> (r: String)
    ensures
        r@ == prefix@ + rest@,
{
    let mut r = prefix.to_owned();
    r.append(rest);
    r
}

} // verus!
