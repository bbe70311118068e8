pub mod cdp;
pub mod launcher;
pub mod types;

use vstd::prelude::*;
use crate::services::environment::keyed_table::{after_remove, after_set, entry_views, lookup};
use crate::services::environment::status::{spec_status_for_connection, status_for_connection, EnvironmentStatus};
use crate::services::environment::status_manager::EnvironmentStatusManager;
use cdp::{first_bindable, held_ports, ports_valid, spec_candidates, CdpEndpointManager};
use crate::app::error::{runtime_error_text, RuntimeError};
use types::EnvironmentCommandResponse;

verus! {

/// The kernel's bookkeeping of environments: the debugging port and the
/// status of each.
pub struct KernelRuntime {
    cdp_endpoint_manager: CdpEndpointManager,
    status_manager: EnvironmentStatusManager,
}

impl KernelRuntime {
    pub closed spec fn view_ports(&self) -> Seq<(Seq<char>, u16)> {
        self.cdp_endpoint_manager.view_ports()
    }

    pub closed spec fn view_statuses(&self) -> Seq<(Seq<char>, EnvironmentStatus)> {
        self.status_manager.view_statuses()
    }

    pub closed spec fn wf(&self) -> bool {
        self.cdp_endpoint_manager.wf() && self.status_manager.wf()
    }

    /// No ports handed out and no statuses.
    pub fn new() -> (k: KernelRuntime)
        ensures
            k.wf(),
            k.view_ports() == Seq::<(Seq<char>, u16)>::empty(),
            k.view_statuses() == Seq::<(Seq<char>, EnvironmentStatus)>::empty(),
    {
        KernelRuntime {
            cdp_endpoint_manager: CdpEndpointManager::new(),
            status_manager: EnvironmentStatusManager::new(),
        }
    }

    /// The port bookkeeping, to read from.
    pub fn cdp_endpoint_manager(&self) -> (m: &CdpEndpointManager)
        ensures
            m.view_ports() == self.view_ports(),
            self.wf() ==> m.wf(),
    {
        &self.cdp_endpoint_manager
    }

    /// The status bookkeeping, to read from.
    pub fn status_manager(&self) -> (m: &EnvironmentStatusManager)
        ensures
            m.view_statuses() == self.view_statuses(),
            self.wf() ==> m.wf(),
    {
        &self.status_manager
    }

    /// Starts the launch of environment `env_id`: it gets its debugging
    /// port (`CdpEndpointManager::allocate_port`, with the bind results
    /// `bindable` of the candidate ports) and, when it has one, is starting
    /// (having passed through initializing). Without a port nothing
    /// changes.
    pub fn begin_launch(&mut self, env_id: &str, bindable: &Vec<bool>) -> (r: Result<u16, RuntimeError>)
        requires
            old(self).wf(),
        ensures
            final(self).wf(),
            lookup(old(self).view_ports(), env_id@) matches Some(q) ==> r == Ok::<u16, RuntimeError>(q)
                && final(self).view_ports() == old(self).view_ports(),
            lookup(old(self).view_ports(), env_id@) is None ==> match first_bindable(
                spec_candidates(held_ports(old(self).view_ports())),
                bindable@,
            ) {
                Some(p) => r == Ok::<u16, RuntimeError>(p) && final(self).view_ports() == after_set(
                    old(self).view_ports(),
                    env_id@,
                    p,
                ),
                None => (r matches Err(e) && runtime_error_text(e) == Some(
                    "internal error: "@ + "No available CDP port in configured range"@,
                )) && final(self).view_ports() == old(self).view_ports(),
            },
            r is Ok ==> final(self).view_statuses() == after_set(
                after_set(old(self).view_statuses(), env_id@, EnvironmentStatus::Initializing),
                env_id@,
                EnvironmentStatus::Starting,
            ),
            r is Err ==> final(self).view_statuses() == old(self).view_statuses(),
    {
        let r = self.cdp_endpoint_manager.allocate_port(env_id, bindable);
        if r.is_ok() {
            self.status_manager.set_status(env_id, EnvironmentStatus::Initializing);
            self.status_manager.set_status(env_id, EnvironmentStatus::Starting);
        }
        r
    }

    /// Records that the browser of environment `env_id` could not be
    /// started: its port is taken back; its status is left as it is.
    pub fn launch_failed(&mut self, env_id: &str)
        requires
            old(self).wf(),
        ensures
            final(self).wf(),
            final(self).view_ports() == after_remove(old(self).view_ports(), env_id@),
            final(self).view_statuses() == old(self).view_statuses(),
    {
        self.cdp_endpoint_manager.remove(env_id);
    }

    /// Records that environment `env_id` has stopped, whether on request or
    /// because its browser went away: its port is taken back and it is
    /// stopped.
    pub fn mark_stopped(&mut self, env_id: &str)
        requires
            old(self).wf(),
        ensures
            final(self).wf(),
            final(self).view_ports() == after_remove(old(self).view_ports(), env_id@),
            final(self).view_statuses() == after_set(
                old(self).view_statuses(),
                env_id@,
                EnvironmentStatus::Stopped,
            ),
    {
        self.cdp_endpoint_manager.remove(env_id);
        self.status_manager.set_status(env_id, EnvironmentStatus::Stopped);
    }

    /// Records a reported change of a browser's connection: connected is
    /// running, disconnected is stopped, anything else changes nothing.
    pub fn apply_connection_status(&mut self, env_id: &str, status: &str)
        requires
            old(self).wf(),
        ensures
            final(self).wf(),
            final(self).view_ports() == old(self).view_ports(),
            final(self).view_statuses() == match spec_status_for_connection(status@) {
                Some(s) => after_set(old(self).view_statuses(), env_id@, s),
                None => old(self).view_statuses(),
            },
    {
        match status_for_connection(status) {
            Some(s) => self.status_manager.set_status(env_id, s),
            None => {},
        }
    }

    /// Answers a status query for environment `env_uuid`.
    pub fn get_environment_status(&self, env_uuid: &str) -> (r: EnvironmentCommandResponse)
        requires
            self.wf(),
        ensures
            r matches EnvironmentCommandResponse::Status { status } && status == lookup(
                self.view_statuses(),
                env_uuid@,
            ),
    {
        EnvironmentCommandResponse::Status { status: self.status_manager.get_status(env_uuid) }
    }

    /// Answers a query for every environment's status.
    pub fn get_all_environment_statuses(&self) -> (r: EnvironmentCommandResponse)
        ensures
            r matches EnvironmentCommandResponse::AllStatuses { statuses } && entry_views(
                statuses@,
            ) == self.view_statuses(),
    {
        EnvironmentCommandResponse::AllStatuses { statuses: self.status_manager.get_all_statuses() }
    }

    /// Forgets every port and status.
    pub fn clear_all(&mut self)
        ensures
            final(self).wf(),
            final(self).view_ports() == Seq::<(Seq<char>, u16)>::empty(),
            final(self).view_statuses() == Seq::<(Seq<char>, EnvironmentStatus)>::empty(),
    {
        self.cdp_endpoint_manager.clear_all();
        self.status_manager.clear();
    }
}

/// Every debugging port the kernel has handed out lies in the range, and no
/// two environments hold the same one.
pub proof fn lemma_kernel_ports_valid(k: KernelRuntime)
    requires
        k.wf(),
    ensures
        ports_valid(k.view_ports()),
{
    cdp::lemma_held_ports_valid(k.cdp_endpoint_manager);
}

} // verus!
