use vstd::prelude::*;
use vstd::std_specs::convert::FromSpecImpl;
use vstd::string::StringExecFns;
use crate::text::{decimal, push_decimal};

verus! {

#[verifier::external_type_specification]
#[verifier::external_body]
pub struct ExIoError(std::io::Error);

/// Failures of the browser event bus.
#[derive(Debug)]
pub enum EventBusError {
    Connection(String),
    NotConnected(String),
    SendFailed(String),
    ReceiveFailed(String),
    Encode(String),
    Decode(String),
    InvalidMessage(String),
    UnknownTopic(u16),
    Io(std::io::Error),
    Serialization(String),
}

pub type Result<T> = std::result::Result<T, EventBusError>;

/// The text of an operating-system error, as std formats it.
///
/// Calls `<std::io::Error as Display>::fmt` through `to_string`; nothing is
/// claimed of the text, which depends on the platform.
#[verifier::external_body]
pub(crate) fn io_error_text(error: &std::io::Error) -> String {
    error.to_string()
}

/// The text that prefixes the detail of each variant.
pub open spec fn event_bus_error_prefix(e: EventBusError) -> Seq<char> {
    match e {
        EventBusError::Connection(_) => "connection error: "@,
        EventBusError::NotConnected(_) => "not connected: "@,
        EventBusError::SendFailed(_) => "send failed: "@,
        EventBusError::ReceiveFailed(_) => "receive failed: "@,
        EventBusError::Encode(_) => "encode error: "@,
        EventBusError::Decode(_) => "decode error: "@,
        EventBusError::InvalidMessage(_) => "invalid message: "@,
        EventBusError::UnknownTopic(_) => "unknown topic: "@,
        EventBusError::Io(_) => "io error: "@,
        EventBusError::Serialization(_) => "serialization error: "@,
    }
}

/// The text of an error, where it does not rest on an operating-system
/// error's text: its prefix followed by its detail.
pub open spec fn event_bus_error_text(e: EventBusError) -> Option<Seq<char>> {
    match e {
        EventBusError::Connection(d) => Some(event_bus_error_prefix(e) + d@),
        EventBusError::NotConnected(d) => Some(event_bus_error_prefix(e) + d@),
        EventBusError::SendFailed(d) => Some(event_bus_error_prefix(e) + d@),
        EventBusError::ReceiveFailed(d) => Some(event_bus_error_prefix(e) + d@),
        EventBusError::Encode(d) => Some(event_bus_error_prefix(e) + d@),
        EventBusError::Decode(d) => Some(event_bus_error_prefix(e) + d@),
        EventBusError::InvalidMessage(d) => Some(event_bus_error_prefix(e) + d@),
        EventBusError::UnknownTopic(t) => Some(event_bus_error_prefix(e) + decimal(t as nat)),
        EventBusError::Io(_) => None,
        EventBusError::Serialization(d) => Some(event_bus_error_prefix(e) + d@),
    }
}

/// Whether `t` is the text of `e`: exactly its text where that does not
/// rest on an operating-system error, else its prefix followed by what std
/// writes for that error.
pub open spec fn event_bus_text_fits(e: EventBusError, t: Seq<char>) -> bool {
    match event_bus_error_text(e) {
        Some(x) => t == x,
        None => event_bus_error_prefix(e).is_prefix_of(t),
    }
}

impl EventBusError {
    /// The human-readable text of the error: its prefix followed by its detail.
    pub fn to_string(&self) -> (s: String)
        ensures
            s@.len() >= event_bus_error_prefix(*self).len(),
            s@.subrange(0, event_bus_error_prefix(*self).len() as int)
                == event_bus_error_prefix(*self),
            event_bus_error_text(*self) matches Some(t) ==> s@ == t,
            event_bus_text_fits(*self, s@),
    {
        let (prefix, detail): (&str, Option<&String>) = match self {
            EventBusError::Connection(d) => ("connection error: ", Some(d)),
            EventBusError::NotConnected(d) => ("not connected: ", Some(d)),
            EventBusError::SendFailed(d) => ("send failed: ", Some(d)),
            EventBusError::ReceiveFailed(d) => ("receive failed: ", Some(d)),
            EventBusError::Encode(d) => ("encode error: ", Some(d)),
            EventBusError::Decode(d) => ("decode error: ", Some(d)),
            EventBusError::InvalidMessage(d) => ("invalid message: ", Some(d)),
            EventBusError::UnknownTopic(_) => ("unknown topic: ", None),
            EventBusError::Io(_) => ("io error: ", None),
            EventBusError::Serialization(d) => ("serialization error: ", Some(d)),
        };
        let mut s = String::from_str(prefix);
        match self {
            EventBusError::UnknownTopic(t) => {
                push_decimal(&mut s, *t as u64);
            },
            EventBusError::Io(e) => {
                let text = io_error_text(e);
                s.append(text.as_str());
            },
            _ => {
                match detail {
                    Some(d) => s.append(d.as_str()),
                    None => {},
                }
            },
        }
        s
    }
}

/// Status codes that a response of the event bus carries.
#[derive(Debug, Clone, Copy, PartialEq, Eq, Structural)]
pub enum ErrorCode {
    Success,
    ConnectionFailed,
    ConnectionLost,
    SendFailed,
    InvalidMessage,
    UnknownTopic,
    DecodeFailed,
    InvalidConfig,
    PermissionDenied,
}

impl ErrorCode {
    /// The number a code travels as.
    pub open spec fn spec_as_i32(self) -> i32 {
        match self {
            ErrorCode::Success => 0,
            ErrorCode::ConnectionFailed => 1001,
            ErrorCode::ConnectionLost => 1002,
            ErrorCode::SendFailed => 1003,
            ErrorCode::InvalidMessage => 2001,
            ErrorCode::UnknownTopic => 2002,
            ErrorCode::DecodeFailed => 2003,
            ErrorCode::InvalidConfig => 3001,
            ErrorCode::PermissionDenied => 3002,
        }
    }

    /// The code a number stands for; a number that names none reads as
    /// `InvalidMessage`.
    pub open spec fn spec_from_i32(code: i32) -> ErrorCode {
        if code == 0 { ErrorCode::Success }
        else if code == 1001 { ErrorCode::ConnectionFailed }
        else if code == 1002 { ErrorCode::ConnectionLost }
        else if code == 1003 { ErrorCode::SendFailed }
        else if code == 2001 { ErrorCode::InvalidMessage }
        else if code == 2002 { ErrorCode::UnknownTopic }
        else if code == 2003 { ErrorCode::DecodeFailed }
        else if code == 3001 { ErrorCode::InvalidConfig }
        else if code == 3002 { ErrorCode::PermissionDenied }
        else { ErrorCode::InvalidMessage }
    }

    /// The number this code travels as.
    pub fn as_i32(&self) -> (n: i32)
        ensures
            n == self.spec_as_i32(),
    {
        match self {
            ErrorCode::Success => 0,
            ErrorCode::ConnectionFailed => 1001,
            ErrorCode::ConnectionLost => 1002,
            ErrorCode::SendFailed => 1003,
            ErrorCode::InvalidMessage => 2001,
            ErrorCode::UnknownTopic => 2002,
            ErrorCode::DecodeFailed => 2003,
            ErrorCode::InvalidConfig => 3001,
            ErrorCode::PermissionDenied => 3002,
        }
    }

    /// The code a number stands for.
    pub fn from_i32(code: i32) -> (c: ErrorCode)
        ensures
            c == ErrorCode::spec_from_i32(code),
    {
        match code {
            0 => ErrorCode::Success,
            1001 => ErrorCode::ConnectionFailed,
            1002 => ErrorCode::ConnectionLost,
            1003 => ErrorCode::SendFailed,
            2001 => ErrorCode::InvalidMessage,
            2002 => ErrorCode::UnknownTopic,
            2003 => ErrorCode::DecodeFailed,
            3001 => ErrorCode::InvalidConfig,
            3002 => ErrorCode::PermissionDenied,
            _ => ErrorCode::InvalidMessage,
        }
    }
}

impl From<i32> for ErrorCode {
    fn from(code: i32) -> (c: ErrorCode) {
        ErrorCode::from_i32(code)
    }
}

impl FromSpecImpl<i32> for ErrorCode {
    open spec fn obeys_from_spec() -> bool {
        true
    }

    open spec fn from_spec(v: i32) -> ErrorCode {
        ErrorCode::spec_from_i32(v)
    }
}

/// Reading back the number of a code gives the code.
pub proof fn lemma_error_code_roundtrip(c: ErrorCode)
    ensures
        ErrorCode::spec_from_i32(c.spec_as_i32()) == c,
{
}


/// The protocol's table of status codes: each status travels as its fixed
/// number, and each of those numbers reads back as that status.
pub proof fn lemma_status_wire_codes()
    ensures
        ErrorCode::Success.spec_as_i32() == 0,
        ErrorCode::ConnectionFailed.spec_as_i32() == 1001,
        ErrorCode::ConnectionLost.spec_as_i32() == 1002,
        ErrorCode::SendFailed.spec_as_i32() == 1003,
        ErrorCode::InvalidMessage.spec_as_i32() == 2001,
        ErrorCode::UnknownTopic.spec_as_i32() == 2002,
        ErrorCode::DecodeFailed.spec_as_i32() == 2003,
        ErrorCode::InvalidConfig.spec_as_i32() == 3001,
        ErrorCode::PermissionDenied.spec_as_i32() == 3002,
        ErrorCode::spec_from_i32(0) == ErrorCode::Success,
        ErrorCode::spec_from_i32(1001) == ErrorCode::ConnectionFailed,
        ErrorCode::spec_from_i32(1002) == ErrorCode::ConnectionLost,
        ErrorCode::spec_from_i32(1003) == ErrorCode::SendFailed,
        ErrorCode::spec_from_i32(2001) == ErrorCode::InvalidMessage,
        ErrorCode::spec_from_i32(2002) == ErrorCode::UnknownTopic,
        ErrorCode::spec_from_i32(2003) == ErrorCode::DecodeFailed,
        ErrorCode::spec_from_i32(3001) == ErrorCode::InvalidConfig,
        ErrorCode::spec_from_i32(3002) == ErrorCode::PermissionDenied,
{
}

} // verus!
