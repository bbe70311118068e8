pub mod api;
pub mod bootstrap;
pub mod error;
pub mod host;
pub mod module;
pub mod state;

pub use api::{
    AuthResponse, DestroyContextRequest, EmptyPayload, EnvironmentResponse, ErrorResponse,
    HandshakeRequest, HandshakeResponse, PingResponse, StateResponse, SyncResponse,
};
pub use error::{Result, RuntimeError};
pub use host::{DispatchControl, DispatchResult, RuntimeLifecycle};
pub use state::{RuntimePhase, RuntimeStateSnapshot, RuntimeStateStore};
