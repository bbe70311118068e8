use vstd::prelude::*;
use vstd::std_specs::convert::FromSpecImpl;
use vstd::string::StringExecFns;
use crate::infrastructure::eventbus::EventBusError;
use crate::infrastructure::eventbus::error::{event_bus_error_text, event_bus_text_fits};
use crate::infrastructure::ipc::error::{ipc_error_text, ipc_text_fits};
use crate::infrastructure::ipc::{ErrorCode, IpcError};

verus! {

/// Failures of the runtime host and its modules.
#[derive(Debug)]
pub enum RuntimeError {
    InvalidState(String),
    AlreadyInitialized,
    NotInitialized,
    ModuleLifecycle { module: &'static str, action: &'static str, message: String },
    Serialization(String),
    Ipc(IpcError),
    EventBus(EventBusError),
    Internal(String),
}

pub type Result<T> = std::result::Result<T, RuntimeError>;

/// The status code a failure is reported to the client with.
pub open spec fn spec_error_code(e: RuntimeError) -> ErrorCode {
    match e {
        RuntimeError::InvalidState(_) => ErrorCode::InvalidState,
        RuntimeError::AlreadyInitialized => ErrorCode::AlreadyInitialized,
        RuntimeError::NotInitialized => ErrorCode::NotInitialized,
        RuntimeError::ModuleLifecycle { .. } => ErrorCode::ModuleFailed,
        RuntimeError::Serialization(_) => ErrorCode::InternalError,
        RuntimeError::Ipc(IpcError::Connection(_)) => ErrorCode::ConnectionFailed,
        RuntimeError::Ipc(IpcError::ConnectionClosed) => ErrorCode::ConnectionClosed,
        RuntimeError::Ipc(IpcError::SendFailed(_)) => ErrorCode::SendFailed,
        RuntimeError::Ipc(IpcError::ReceiveFailed(_)) => ErrorCode::ConnectionClosed,
        RuntimeError::Ipc(IpcError::Encode(_)) => ErrorCode::InternalError,
        RuntimeError::Ipc(IpcError::Decode(_)) => ErrorCode::DecodeFailed,
        RuntimeError::Ipc(IpcError::InvalidMessage(_)) => ErrorCode::InvalidMessage,
        RuntimeError::Ipc(IpcError::Serialization(_)) => ErrorCode::InternalError,
        RuntimeError::Ipc(IpcError::Io(_)) => ErrorCode::InternalError,
        RuntimeError::EventBus(_) => ErrorCode::InternalError,
        RuntimeError::Internal(_) => ErrorCode::InternalError,
    }
}

/// The text of a failure, where it does not rest on an operating-system
/// error's text.
pub open spec fn runtime_error_text(e: RuntimeError) -> Option<Seq<char>> {
    match e {
        RuntimeError::InvalidState(s) => Some("invalid runtime state: "@ + s@),
        RuntimeError::AlreadyInitialized => Some("runtime context already initialized"@),
        RuntimeError::NotInitialized => Some("runtime context is not initialized"@),
        RuntimeError::ModuleLifecycle { module, action, message } => Some(
            "module '"@ + module@ + "' failed during '"@ + action@ + "': "@ + message@,
        ),
        RuntimeError::Serialization(s) => Some("serialization error: "@ + s@),
        RuntimeError::Ipc(i) => match ipc_error_text(i) {
            Some(t) => Some("ipc error: "@ + t),
            None => None,
        },
        RuntimeError::EventBus(b) => match event_bus_error_text(b) {
            Some(t) => Some("eventbus error: "@ + t),
            None => None,
        },
        RuntimeError::Internal(s) => Some("internal error: "@ + s@),
    }
}

/// Whether `t` is the text of `e`: exactly its text where that does not
/// rest on an operating-system error; for a wrapped one, the wrapper's
/// prefix followed by the wrapped error's text.
pub open spec fn runtime_text_fits(e: RuntimeError, t: Seq<char>) -> bool {
    match e {
        RuntimeError::Ipc(i) => {
            &&& "ipc error: "@.is_prefix_of(t)
            &&& ipc_text_fits(i, t.subrange("ipc error: "@.len() as int, t.len() as int))
        },
        RuntimeError::EventBus(b) => {
            &&& "eventbus error: "@.is_prefix_of(t)
            &&& event_bus_text_fits(b, t.subrange("eventbus error: "@.len() as int, t.len() as int))
        },
        _ => runtime_error_text(e) == Some(t),
    }
}

impl RuntimeError {
    /// The status code this failure is reported to the client with.
    pub fn code(&self) -> (c: ErrorCode)
        ensures
            c == spec_error_code(*self),
    {
        match self {
            RuntimeError::InvalidState(_) => ErrorCode::InvalidState,
            RuntimeError::AlreadyInitialized => ErrorCode::AlreadyInitialized,
            RuntimeError::NotInitialized => ErrorCode::NotInitialized,
            RuntimeError::ModuleLifecycle { .. } => ErrorCode::ModuleFailed,
            RuntimeError::Serialization(_) => ErrorCode::InternalError,
            RuntimeError::Ipc(IpcError::Connection(_)) => ErrorCode::ConnectionFailed,
            RuntimeError::Ipc(IpcError::ConnectionClosed) => ErrorCode::ConnectionClosed,
            RuntimeError::Ipc(IpcError::SendFailed(_)) => ErrorCode::SendFailed,
            RuntimeError::Ipc(IpcError::ReceiveFailed(_)) => ErrorCode::ConnectionClosed,
            RuntimeError::Ipc(IpcError::Encode(_)) => ErrorCode::InternalError,
            RuntimeError::Ipc(IpcError::Decode(_)) => ErrorCode::DecodeFailed,
            RuntimeError::Ipc(IpcError::InvalidMessage(_)) => ErrorCode::InvalidMessage,
            RuntimeError::Ipc(IpcError::Serialization(_)) => ErrorCode::InternalError,
            RuntimeError::Ipc(IpcError::Io(_)) => ErrorCode::InternalError,
            RuntimeError::EventBus(_) => ErrorCode::InternalError,
            RuntimeError::Internal(_) => ErrorCode::InternalError,
        }
    }

    /// The human-readable text of the failure.
    pub fn to_string(&self) -> (s: String)
        ensures
            runtime_error_text(*self) matches Some(t) ==> s@ == t,
            runtime_text_fits(*self, s@),
    {
        match self {
            RuntimeError::InvalidState(d) => String::from_str("invalid runtime state: ").concat(
                d.as_str(),
            ),
            RuntimeError::AlreadyInitialized => String::from_str(
                "runtime context already initialized",
            ),
            RuntimeError::NotInitialized => String::from_str("runtime context is not initialized"),
            RuntimeError::ModuleLifecycle { module, action, message } => {
                let mut s = String::from_str("module '");
                s.append(module);
                s.append("' failed during '");
                s.append(action);
                s.append("': ");
                s.append(message.as_str());
                s
            },
            RuntimeError::Serialization(d) => String::from_str("serialization error: ").concat(
                d.as_str(),
            ),
            RuntimeError::Ipc(e) => {
                let inner = e.to_string();
                let s = String::from_str("ipc error: ").concat(inner.as_str());
                proof {
                    let p = "ipc error: "@;
                    assert(s@.subrange(0, p.len() as int) =~= p);
                    assert(s@.subrange(p.len() as int, s@.len() as int) =~= inner@);
                }
                s
            },
            RuntimeError::EventBus(e) => {
                let inner = e.to_string();
                let s = String::from_str("eventbus error: ").concat(inner.as_str());
                proof {
                    let p = "eventbus error: "@;
                    assert(s@.subrange(0, p.len() as int) =~= p);
                    assert(s@.subrange(p.len() as int, s@.len() as int) =~= inner@);
                }
                s
            },
            RuntimeError::Internal(d) => String::from_str("internal error: ").concat(d.as_str()),
        }
    }
}

/// The failure a module reports for a lifecycle step, wrapped with the
/// module's name and the step.
pub fn wrap_module_error(module: &'static str, action: &'static str, error: RuntimeError) -> (e:
    RuntimeError)
    ensures
        e matches RuntimeError::ModuleLifecycle { module: m, action: a, message } && m == module
            && a == action && runtime_text_fits(error, message@),
{
    RuntimeError::ModuleLifecycle { module, action, message: error.to_string() }
}

impl From<IpcError> for RuntimeError {
    fn from(error: IpcError) -> (e: RuntimeError) {
        RuntimeError::Ipc(error)
    }
}

impl FromSpecImpl<IpcError> for RuntimeError {
    open spec fn obeys_from_spec() -> bool {
        true
    }

    open spec fn from_spec(v: IpcError) -> RuntimeError {
        RuntimeError::Ipc(v)
    }
}

impl From<EventBusError> for RuntimeError {
    fn from(error: EventBusError) -> (e: RuntimeError) {
        RuntimeError::EventBus(error)
    }
}

impl FromSpecImpl<EventBusError> for RuntimeError {
    open spec fn obeys_from_spec() -> bool {
        true
    }

    open spec fn from_spec(v: EventBusError) -> RuntimeError {
        RuntimeError::EventBus(v)
    }
}

} // verus!
