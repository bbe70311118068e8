use vstd::prelude::*;
use crate::app::error::{runtime_text_fits, RuntimeError};
use crate::services::environment::status::EnvironmentStatus;

verus! {

/// Credentials for a proxy.
#[derive(Debug)]
pub struct BrowserProxyAuthPayload {
    pub username: String,
    pub password: String,
}

/// The proxy a browser is told to use.
#[derive(Debug)]
pub struct BrowserProxyConfigPayload {
    pub mode: String,
    pub server: String,
    pub bypass_list: Option<String>,
    pub auth: Option<std::collections::HashMap<String, BrowserProxyAuthPayload>>,
}

/// Where the debugging endpoint of an environment's browser listens.
#[derive(Debug)]
pub struct CdpEndpointResponse {
    pub env_uuid: String,
    pub host: String,
    pub port: u16,
    pub version_url: String,
    pub list_url: String,
    pub browser_ws_url: Option<String>,
}

/// How launching or stopping one environment of a batch went.
#[derive(Debug)]
pub struct BatchLaunchResult {
    pub env_uuid: String,
    pub success: bool,
    pub error: Option<String>,
}

impl BatchLaunchResult {
    /// The result for environment `env_uuid`, given how its launch or stop
    /// went: success with no error text, or failure with the error's text.
    pub fn from_outcome(env_uuid: String, outcome: &Result<(), RuntimeError>) -> (r: BatchLaunchResult)
        ensures
            r.env_uuid@ == env_uuid@,
            r.success == outcome is Ok,
            outcome is Ok ==> r.error is None,
            outcome matches Err(e) ==> (r.error matches Some(t) && runtime_text_fits(*e, t@)),
    {
        match outcome {
            Ok(()) => BatchLaunchResult { env_uuid, success: true, error: None },
            Err(e) => BatchLaunchResult { env_uuid, success: false, error: Some(e.to_string()) },
        }
    }
}

/// A request to move and resize an environment's browser window.
#[derive(Debug)]
pub struct WindowBoundsRequest {
    pub env_uuid: String,
    pub x: i32,
    pub y: i32,
    pub width: i32,
    pub height: i32,
}

/// Answers of the environment module.
#[derive(Debug)]
#[allow(inconsistent_fields)]
pub enum EnvironmentCommandResponse {
    Ack,
    Started { endpoint: CdpEndpointResponse },
    ConnectedEnvironments { env_ids: Vec<String> },
    CdpEndpoint { endpoint: Option<CdpEndpointResponse> },
    BatchLaunchResults { results: Vec<BatchLaunchResult> },
    Status { status: Option<EnvironmentStatus> },
    AllStatuses { statuses: Vec<(String, EnvironmentStatus)> },
}

} // verus!
