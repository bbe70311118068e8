pub mod kernel;
pub mod keyed_table;
pub mod status;
pub mod status_manager;

pub use status::EnvironmentStatus;
pub use status_manager::EnvironmentStatusManager;

use vstd::prelude::*;
use vstd::string::StringExecFns;
use crate::app::state::{clone_opt_string, opt_view};
use crate::app::error::{runtime_error_text, RuntimeError};
use crate::infrastructure::eventbus::manager::{views, EventBusState};
use kernel::KernelRuntime;

verus! {

/// Phases of the environment module.
#[derive(Debug, Clone, Copy, PartialEq, Eq, Structural)]
pub enum EnvironmentModulePhase {
    Dormant,
    RuntimeStarted,
    ContextReady,
    RuntimeStopped,
}

impl EnvironmentModulePhase {
    /// The name of a phase in health reports.
    pub open spec fn spec_name(self) -> Seq<char> {
        match self {
            EnvironmentModulePhase::Dormant => "dormant"@,
            EnvironmentModulePhase::RuntimeStarted => "runtime_started"@,
            EnvironmentModulePhase::ContextReady => "context_ready"@,
            EnvironmentModulePhase::RuntimeStopped => "runtime_stopped"@,
        }
    }

    /// The name of this phase in health reports.
    pub fn as_str(self) -> (s: &'static str)
        ensures
            s@ == self.spec_name(),
    {
        match self {
            EnvironmentModulePhase::Dormant => "dormant",
            EnvironmentModulePhase::RuntimeStarted => "runtime_started",
            EnvironmentModulePhase::ContextReady => "context_ready",
            EnvironmentModulePhase::RuntimeStopped => "runtime_stopped",
        }
    }
}

/// The environment module: its lifecycle, and the kernel's bookkeeping of
/// ports and statuses.
pub struct EnvironmentRuntimeModule {
    phase: EnvironmentModulePhase,
    active_environments: u32,
    last_error: Option<String>,
    started: bool,
    kernel: KernelRuntime,
}

impl EnvironmentRuntimeModule {
    pub closed spec fn spec_phase(&self) -> EnvironmentModulePhase {
        self.phase
    }

    /// Whether the module has been started and not shut down since.
    pub closed spec fn spec_started(&self) -> bool {
        self.started
    }

    pub closed spec fn spec_healthy(&self) -> bool {
        self.last_error is None
    }

    pub closed spec fn spec_kernel(&self) -> KernelRuntime {
        self.kernel
    }

    pub open spec fn wf(&self) -> bool {
        self.spec_kernel().wf()
    }

    /// A dormant module with empty bookkeeping.
    pub fn new() -> (m: EnvironmentRuntimeModule)
        ensures
            m.spec_phase() == EnvironmentModulePhase::Dormant,
            !m.spec_started(),
            m.spec_healthy(),
            m.wf(),
            m.spec_kernel().view_ports() == Seq::<(Seq<char>, u16)>::empty(),
            m.spec_kernel().view_statuses() == Seq::<(Seq<char>, EnvironmentStatus)>::empty(),
    {
        EnvironmentRuntimeModule {
            phase: EnvironmentModulePhase::Dormant,
            active_environments: 0,
            last_error: None,
            started: false,
            kernel: KernelRuntime::new(),
        }
    }

    /// The module's name.
    pub fn name(&self) -> (s: &'static str)
        ensures
            s@ == "environment"@,
    {
        "environment"
    }

    /// The current phase.
    pub fn phase(&self) -> (p: EnvironmentModulePhase)
        ensures
            p == self.spec_phase(),
    {
        self.phase
    }

    /// Whether no error is recorded.
    pub fn healthy(&self) -> (b: bool)
        ensures
            b == self.spec_healthy(),
    {
        self.last_error.is_none()
    }

    /// The error recorded last, if any.
    pub closed spec fn spec_last_error(&self) -> Option<Seq<char>> {
        opt_view(self.last_error)
    }

    /// The error recorded last, if any: none exactly when healthy.
    pub fn last_error(&self) -> (e: Option<String>)
        ensures
            opt_view(e) == self.spec_last_error(),
            e is None <==> self.spec_healthy(),
    {
        clone_opt_string(&self.last_error)
    }

    /// The kernel's bookkeeping, to read from.
    pub fn kernel(&self) -> (k: &KernelRuntime)
        ensures
            *k == self.spec_kernel(),
    {
        &self.kernel
    }

    /// The kernel's bookkeeping, to change.
    pub fn kernel_mut(&mut self) -> (k: &mut KernelRuntime)
        ensures
            *k == old(self).spec_kernel(),
            final(self).spec_kernel() == *final(k),
            final(self).spec_phase() == old(self).spec_phase(),
            final(self).spec_started() == old(self).spec_started(),
            final(self).spec_healthy() == old(self).spec_healthy(),
    {
        &mut self.kernel
    }

    /// On runtime start: started, with no error.
    pub fn on_runtime_start(&mut self)
        ensures
            final(self).spec_phase() == EnvironmentModulePhase::RuntimeStarted,
            final(self).spec_started(),
            final(self).spec_healthy(),
            final(self).spec_kernel() == old(self).spec_kernel(),
    {
        self.started = true;
        self.phase = EnvironmentModulePhase::RuntimeStarted;
        self.last_error = None;
    }

    /// On context initialization: only after runtime start.
    pub fn on_context_initialize(&mut self) -> (r: Result<(), RuntimeError>)
        ensures
            old(self).spec_phase() != EnvironmentModulePhase::RuntimeStarted ==> (r matches Err(e)
                && runtime_error_text(e) == Some(
                "invalid runtime state: "@
                    + "environment module requires runtime_started before context init"@,
            )) && *final(self) == *old(self),
            old(self).spec_phase() == EnvironmentModulePhase::RuntimeStarted ==> r is Ok
                && final(self).spec_phase() == EnvironmentModulePhase::ContextReady
                && final(self).spec_kernel() == old(self).spec_kernel() && final(self).spec_started()
                == old(self).spec_started() && final(self).spec_healthy() == old(self).spec_healthy(),
    {
        if self.phase != EnvironmentModulePhase::RuntimeStarted {
            return Err(
                RuntimeError::InvalidState(
                    String::from_str(
                        "environment module requires runtime_started before context init",
                    ),
                ),
            );
        }
        self.phase = EnvironmentModulePhase::ContextReady;
        Ok(())
    }

    /// Whether a client command may run: only with a context and once
    /// started.
    pub fn check_command_allowed(&self) -> (r: Result<(), RuntimeError>)
        ensures
            self.spec_phase() != EnvironmentModulePhase::ContextReady ==> (r matches Err(e)
                && runtime_error_text(e) == Some(
                "invalid runtime state: "@ + "environment runtime requires initialized context"@,
            )),
            self.spec_phase() == EnvironmentModulePhase::ContextReady && !self.spec_started() ==> (
            r matches Err(e) && runtime_error_text(e) == Some(
                "invalid runtime state: "@ + "environment runtime not started"@,
            )),
            self.spec_phase() == EnvironmentModulePhase::ContextReady && self.spec_started() ==> r is Ok,
    {
        if self.phase != EnvironmentModulePhase::ContextReady {
            return Err(
                RuntimeError::InvalidState(
                    String::from_str("environment runtime requires initialized context"),
                ),
            );
        }
        if !self.started {
            return Err(
                RuntimeError::InvalidState(String::from_str("environment runtime not started")),
            );
        }
        Ok(())
    }

    /// On context teardown: every browser connection is dropped (the ids are
    /// returned, to be sent a disconnect), the bookkeeping is emptied, and
    /// the module waits for the next context.
    pub fn on_context_destroy(&mut self, bus: &mut Option<EventBusState>) -> (dropped: Vec<String>)
        requires
            *old(bus) matches Some(b) ==> b.wf(),
        ensures
            final(self).wf(),
            final(self).spec_phase() == EnvironmentModulePhase::RuntimeStarted,
            final(self).spec_started() == old(self).spec_started(),
            final(self).spec_kernel().view_ports() == Seq::<(Seq<char>, u16)>::empty(),
            final(self).spec_kernel().view_statuses() == Seq::<(Seq<char>, EnvironmentStatus)>::empty(),
            match *old(bus) {
                Some(b) => views(dropped@) == b.spec_connected() && (*final(bus) matches Some(fb)
                    && fb.wf() && fb.spec_connected() == Seq::<Seq<char>>::empty()
                    && fb.spec_sync_master() == b.spec_sync_master() && fb.spec_sync_slaves()
                    == b.spec_sync_slaves()),
                None => dropped@.len() == 0 && *final(bus) is None,
            },
    {
        let dropped = match bus {
            Some(b) => b.drain(),
            None => Vec::new(),
        };
        self.kernel.clear_all();
        self.phase = EnvironmentModulePhase::RuntimeStarted;
        self.active_environments = 0;
        dropped
    }

    /// On runtime shutdown: as on context teardown, and the module is
    /// stopped.
    pub fn on_runtime_shutdown(&mut self, bus: &mut Option<EventBusState>) -> (dropped: Vec<String>)
        requires
            *old(bus) matches Some(b) ==> b.wf(),
        ensures
            final(self).wf(),
            final(self).spec_phase() == EnvironmentModulePhase::RuntimeStopped,
            !final(self).spec_started(),
            final(self).spec_kernel().view_ports() == Seq::<(Seq<char>, u16)>::empty(),
            final(self).spec_kernel().view_statuses() == Seq::<(Seq<char>, EnvironmentStatus)>::empty(),
            match *old(bus) {
                Some(b) => views(dropped@) == b.spec_connected() && (*final(bus) matches Some(fb)
                    && fb.wf() && fb.spec_connected() == Seq::<Seq<char>>::empty()
                    && fb.spec_sync_master() == b.spec_sync_master() && fb.spec_sync_slaves()
                    == b.spec_sync_slaves()),
                None => dropped@.len() == 0 && *final(bus) is None,
            },
    {
        let dropped = match bus {
            Some(b) => b.drain(),
            None => Vec::new(),
        };
        self.kernel.clear_all();
        self.started = false;
        self.phase = EnvironmentModulePhase::RuntimeStopped;
        self.active_environments = 0;
        dropped
    }
}

} // verus!
