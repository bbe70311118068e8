use vstd::prelude::*;

verus! {

/// A browser environment that is running, as the sync module lists it.
#[derive(Debug)]
pub struct RunningEnvironment {
    pub uuid: String,
    pub name: String,
    pub status: String,
}

/// Commands the client sends to the sync module.
#[derive(Debug)]
pub enum SyncCommandRequest {
    GetRunningEnvironments,
    StartSync { master_env_id: String, slave_env_ids: Vec<String> },
    StopSync,
}

/// Answers of the sync module.
#[derive(Debug)]
pub enum SyncCommandResponse {
    Ack,
    RunningEnvironments { environments: Vec<RunningEnvironment> },
}

} // verus!
