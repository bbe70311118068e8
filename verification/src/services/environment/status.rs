use vstd::prelude::*;

verus! {

/// Where an environment's browser is in its life.
#[derive(Debug, Clone, Copy, PartialEq, Eq, Structural)]
pub enum EnvironmentStatus {
    Verifying,
    Downloading,
    Extracting,
    Ready,
    Initializing,
    Starting,
    Running,
    Stopping,
    Stopped,
    Error,
}

/// The status that a reported change of a browser's connection means:
/// `connected` is running, `disconnected` is stopped, anything else none.
pub open spec fn spec_status_for_connection(status: Seq<char>) -> Option<EnvironmentStatus> {
    if status == "connected"@ {
        Some(EnvironmentStatus::Running)
    } else if status == "disconnected"@ {
        Some(EnvironmentStatus::Stopped)
    } else {
        None
    }
}

/// The status that a reported change of a browser's connection means.
pub fn status_for_connection(status: &str) -> (r: Option<EnvironmentStatus>)
    ensures
        r == spec_status_for_connection(status@),
{
    if crate::infrastructure::eventbus::manager::same_text(status, "connected") {
        Some(EnvironmentStatus::Running)
    } else if crate::infrastructure::eventbus::manager::same_text(status, "disconnected") {
        Some(EnvironmentStatus::Stopped)
    } else {
        None
    }
}

} // verus!
