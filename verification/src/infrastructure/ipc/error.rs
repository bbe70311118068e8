use vstd::prelude::*;
use vstd::string::StringExecFns;
use crate::infrastructure::eventbus::error::io_error_text;

verus! {

/// Failures of the stdio protocol.
#[derive(Debug)]
pub enum IpcError {
    Connection(String),
    ConnectionClosed,
    SendFailed(String),
    ReceiveFailed(String),
    Encode(String),
    Decode(String),
    InvalidMessage(String),
    Serialization(String),
    Io(std::io::Error),
}

pub type Result<T> = std::result::Result<T, IpcError>;


/// The text of an error that carries a detail string: its prefix and the detail.
pub open spec fn ipc_error_text(e: IpcError) -> Option<Seq<char>> {
    match e {
        IpcError::Connection(d) => Some("connection error: "@ + d@),
        IpcError::ConnectionClosed => Some("connection closed"@),
        IpcError::SendFailed(d) => Some("send failed: "@ + d@),
        IpcError::ReceiveFailed(d) => Some("receive failed: "@ + d@),
        IpcError::Encode(d) => Some("encode error: "@ + d@),
        IpcError::Decode(d) => Some("decode error: "@ + d@),
        IpcError::InvalidMessage(d) => Some("invalid message: "@ + d@),
        IpcError::Serialization(d) => Some("serialization error: "@ + d@),
        IpcError::Io(_) => None,
    }
}

/// Whether `t` is the text of `e`: exactly its text where that does not
/// rest on an operating-system error, else `"io error: "` followed by what
/// std writes for that error.
pub open spec fn ipc_text_fits(e: IpcError, t: Seq<char>) -> bool {
    match ipc_error_text(e) {
        Some(x) => t == x,
        None => "io error: "@.is_prefix_of(t),
    }
}

impl IpcError {
    /// The human-readable text of the error.
    pub fn to_string(&self) -> (s: String)
        ensures
            ipc_error_text(*self) matches Some(t) ==> s@ == t,
            ipc_text_fits(*self, s@),
    {
        match self {
            IpcError::Connection(d) => String::from_str("connection error: ").concat(d.as_str()),
            IpcError::ConnectionClosed => String::from_str("connection closed"),
            IpcError::SendFailed(d) => String::from_str("send failed: ").concat(d.as_str()),
            IpcError::ReceiveFailed(d) => String::from_str("receive failed: ").concat(d.as_str()),
            IpcError::Encode(d) => String::from_str("encode error: ").concat(d.as_str()),
            IpcError::Decode(d) => String::from_str("decode error: ").concat(d.as_str()),
            IpcError::InvalidMessage(d) => String::from_str("invalid message: ").concat(d.as_str()),
            IpcError::Serialization(d) => String::from_str("serialization error: ").concat(
                d.as_str(),
            ),
            IpcError::Io(e) => String::from_str("io error: ").concat(io_error_text(e).as_str()),
        }
    }
}

/// Status codes of responses on the stdio protocol.
#[derive(Debug, Clone, Copy, PartialEq, Eq, Structural)]
pub enum ErrorCode {
    Success,
    ConnectionFailed,
    ConnectionClosed,
    SendFailed,
    InvalidMessage,
    DecodeFailed,
    HandshakeRequired,
    InvalidState,
    AlreadyInitialized,
    NotInitialized,
    ModuleFailed,
    InternalError,
}

impl ErrorCode {
    /// The number a status travels as.
    pub open spec fn spec_as_i32(self) -> i32 {
        match self {
            ErrorCode::Success => 0,
            ErrorCode::ConnectionFailed => 1001,
            ErrorCode::ConnectionClosed => 1002,
            ErrorCode::SendFailed => 1003,
            ErrorCode::InvalidMessage => 2001,
            ErrorCode::DecodeFailed => 2003,
            ErrorCode::HandshakeRequired => 2004,
            ErrorCode::InvalidState => 3001,
            ErrorCode::AlreadyInitialized => 3002,
            ErrorCode::NotInitialized => 3003,
            ErrorCode::ModuleFailed => 3004,
            ErrorCode::InternalError => 5000,
        }
    }

    /// The number this status travels as.
    pub fn as_i32(&self) -> (n: i32)
        ensures
            n == self.spec_as_i32(),
    {
        match self {
            ErrorCode::Success => 0,
            ErrorCode::ConnectionFailed => 1001,
            ErrorCode::ConnectionClosed => 1002,
            ErrorCode::SendFailed => 1003,
            ErrorCode::InvalidMessage => 2001,
            ErrorCode::DecodeFailed => 2003,
            ErrorCode::HandshakeRequired => 2004,
            ErrorCode::InvalidState => 3001,
            ErrorCode::AlreadyInitialized => 3002,
            ErrorCode::NotInitialized => 3003,
            ErrorCode::ModuleFailed => 3004,
            ErrorCode::InternalError => 5000,
        }
    }
}


/// The table of status numbers of the stdio protocol: each status travels
/// as its fixed number.
pub proof fn lemma_ipc_status_numbers()
    ensures
        ErrorCode::Success.spec_as_i32() == 0,
        ErrorCode::ConnectionFailed.spec_as_i32() == 1001,
        ErrorCode::ConnectionClosed.spec_as_i32() == 1002,
        ErrorCode::SendFailed.spec_as_i32() == 1003,
        ErrorCode::InvalidMessage.spec_as_i32() == 2001,
        ErrorCode::DecodeFailed.spec_as_i32() == 2003,
        ErrorCode::HandshakeRequired.spec_as_i32() == 2004,
        ErrorCode::InvalidState.spec_as_i32() == 3001,
        ErrorCode::AlreadyInitialized.spec_as_i32() == 3002,
        ErrorCode::NotInitialized.spec_as_i32() == 3003,
        ErrorCode::ModuleFailed.spec_as_i32() == 3004,
        ErrorCode::InternalError.spec_as_i32() == 5000,
{
}

} // verus!
