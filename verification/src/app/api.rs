use vstd::prelude::*;
use super::error::{runtime_error_text, runtime_text_fits, RuntimeError};
use super::state::{RuntimePhase, RuntimeStateSnapshot, RuntimeStateStore};
use crate::infrastructure::ipc::PROTOCOL_VERSION;
use crate::services::auth::types::AuthCommandResponse;
use crate::services::environment::kernel::types::EnvironmentCommandResponse;
use crate::services::sync::types::SyncCommandResponse;

verus! {

/// A request or answer with nothing in it.
#[derive(Debug, Default)]
pub struct EmptyPayload {}

/// What the client announces in its handshake.
#[derive(Debug)]
pub struct HandshakeRequest {
    pub protocol_version: u8,
    pub client_name: String,
    pub client_version: String,
}

/// What the runtime answers a handshake with.
#[derive(Debug)]
pub struct HandshakeResponse {
    pub protocol_version: u8,
    pub runtime_version: String,
    pub runtime_id: String,
}

/// Why the client asks to destroy the context, if it says.
#[derive(Debug, Default)]
pub struct DestroyContextRequest {
    pub reason: Option<String>,
}

/// What the runtime answers a ping with.
#[derive(Debug)]
pub struct PingResponse {
    pub runtime_id: String,
    pub phase: RuntimePhase,
    pub uptime_ms: u64,
}

/// The body of a failed response.
#[derive(Debug)]
pub struct ErrorResponse {
    pub message: String,
}

/// The runtime's state, as an answer.
#[derive(Debug)]
pub struct StateResponse {
    pub state: RuntimeStateSnapshot,
}

/// The environment module's answer.
#[derive(Debug)]
pub struct EnvironmentResponse {
    pub result: EnvironmentCommandResponse,
}

/// The sign-in module's answer.
#[derive(Debug)]
pub struct AuthResponse {
    pub result: AuthCommandResponse,
}

/// The sync module's answer.
#[derive(Debug)]
pub struct SyncResponse {
    pub result: SyncCommandResponse,
}

impl HandshakeResponse {
    /// The handshake answer of a runtime: the protocol version it speaks,
    /// its version and its id.
    pub fn for_runtime(state: &RuntimeStateStore) -> (r: HandshakeResponse)
        ensures
            r.protocol_version == PROTOCOL_VERSION,
            r.runtime_version@ == state.spec_runtime_version(),
            r.runtime_id@ == state.spec_runtime_id(),
    {
        HandshakeResponse {
            protocol_version: PROTOCOL_VERSION,
            runtime_version: String::from_str(state.runtime_version()),
            runtime_id: String::from_str(state.runtime_id()),
        }
    }
}

impl PingResponse {
    /// The ping answer drawn from a state snapshot.
    pub fn from_snapshot(snapshot: &RuntimeStateSnapshot) -> (r: PingResponse)
        ensures
            r.runtime_id@ == snapshot.runtime_id@,
            r.phase == snapshot.phase,
            r.uptime_ms == snapshot.uptime_ms,
    {
        PingResponse {
            runtime_id: snapshot.runtime_id.clone(),
            phase: snapshot.phase,
            uptime_ms: snapshot.uptime_ms,
        }
    }
}

impl ErrorResponse {
    /// The body of the failed response to a request that ended in `error`:
    /// the error's text.
    pub fn for_error(error: &RuntimeError) -> (r: ErrorResponse)
        ensures
            runtime_error_text(*error) matches Some(t) ==> r.message@ == t,
            runtime_text_fits(*error, r.message@),
    {
        ErrorResponse { message: error.to_string() }
    }
}

} // verus!
