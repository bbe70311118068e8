use vstd::prelude::*;
use vstd::string::StringExecFns;

verus! {

/// Phases of the runtime host.
#[derive(Debug, Clone, Copy, PartialEq, Eq, Structural)]
pub enum RuntimePhase {
    Booting,
    Uninitialized,
    Initializing,
    Ready,
    Destroying,
    ShuttingDown,
    Stopped,
    Failed,
}

impl RuntimePhase {
    /// The name of a phase as its debug form prints it.
    pub open spec fn spec_debug_name(self) -> Seq<char> {
        match self {
            RuntimePhase::Booting => "Booting"@,
            RuntimePhase::Uninitialized => "Uninitialized"@,
            RuntimePhase::Initializing => "Initializing"@,
            RuntimePhase::Ready => "Ready"@,
            RuntimePhase::Destroying => "Destroying"@,
            RuntimePhase::ShuttingDown => "ShuttingDown"@,
            RuntimePhase::Stopped => "Stopped"@,
            RuntimePhase::Failed => "Failed"@,
        }
    }

    /// The name of this phase as its debug form prints it.
    pub fn debug_name(&self) -> (s: &'static str)
        ensures
            s@ == self.spec_debug_name(),
    {
        match self {
            RuntimePhase::Booting => "Booting",
            RuntimePhase::Uninitialized => "Uninitialized",
            RuntimePhase::Initializing => "Initializing",
            RuntimePhase::Ready => "Ready",
            RuntimePhase::Destroying => "Destroying",
            RuntimePhase::ShuttingDown => "ShuttingDown",
            RuntimePhase::Stopped => "Stopped",
            RuntimePhase::Failed => "Failed",
        }
    }
}

/// The view of an optional string.
pub open spec fn opt_view(o: Option<String>) -> Option<Seq<char>> {
    match o {
        Some(s) => Some(s@),
        None => None,
    }
}

/// A copy of an optional string.
pub fn clone_opt_string(o: &Option<String>) -> (r: Option<String>)
    ensures
        r == *o,
{
    match o {
        Some(s) => Some(s.clone()),
        None => None,
    }
}

/// What the runtime reports of its own state.
#[derive(Debug)]
pub struct RuntimeStateSnapshot {
    pub runtime_id: String,
    pub runtime_version: String,
    pub phase: RuntimePhase,
    pub booted_at_unix_ms: u64,
    pub uptime_ms: u64,
    pub context_id: Option<String>,
    pub last_error: Option<String>,
    pub module_count: usize,
}

/// The mutable state of the runtime host: its identity, phase, attached
/// context and last recorded error.
pub struct RuntimeStateStore {
    runtime_id: String,
    runtime_version: String,
    booted_at_unix_ms: u64,
    phase: RuntimePhase,
    context_id: Option<String>,
    last_error: Option<String>,
}

impl RuntimeStateStore {
    pub closed spec fn spec_phase(&self) -> RuntimePhase {
        self.phase
    }

    pub closed spec fn spec_context_id(&self) -> Option<Seq<char>> {
        opt_view(self.context_id)
    }

    pub closed spec fn spec_last_error(&self) -> Option<Seq<char>> {
        opt_view(self.last_error)
    }

    pub closed spec fn spec_runtime_id(&self) -> Seq<char> {
        self.runtime_id@
    }

    pub closed spec fn spec_runtime_version(&self) -> Seq<char> {
        self.runtime_version@
    }

    pub closed spec fn spec_booted_at(&self) -> u64 {
        self.booted_at_unix_ms
    }

    /// Whether two stores have the same identity and boot time.
    pub open spec fn same_identity(&self, other: &RuntimeStateStore) -> bool {
        &&& self.spec_runtime_id() == other.spec_runtime_id()
        &&& self.spec_runtime_version() == other.spec_runtime_version()
        &&& self.spec_booted_at() == other.spec_booted_at()
    }

    /// A store in the `Booting` phase, with no context and no error.
    pub fn new(runtime_id: String, runtime_version: String, booted_at_unix_ms: u64) -> (s: Self)
        ensures
            s.spec_runtime_id() == runtime_id@,
            s.spec_runtime_version() == runtime_version@,
            s.spec_booted_at() == booted_at_unix_ms,
            s.spec_phase() == RuntimePhase::Booting,
            s.spec_context_id() == None::<Seq<char>>,
            s.spec_last_error() == None::<Seq<char>>,
    {
        RuntimeStateStore {
            runtime_id,
            runtime_version,
            booted_at_unix_ms,
            phase: RuntimePhase::Booting,
            context_id: None,
            last_error: None,
        }
    }

    /// Moves to `phase`; nothing else changes.
    pub fn transition(&mut self, phase: RuntimePhase)
        ensures
            final(self).spec_phase() == phase,
            final(self).spec_context_id() == old(self).spec_context_id(),
            final(self).spec_last_error() == old(self).spec_last_error(),
            final(self).same_identity(old(self)),
    {
        self.phase = phase;
    }

    /// The id of the attached context, if any.
    pub fn context_id_ref(&self) -> (c: &Option<String>)
        ensures
            opt_view(*c) == self.spec_context_id(),
    {
        &self.context_id
    }

    /// The current phase.
    pub fn phase(&self) -> (p: RuntimePhase)
        ensures
            p == self.spec_phase(),
    {
        self.phase
    }

    /// Records the id of the attached context; nothing else changes.
    pub fn attach_context(&mut self, context_id: String)
        ensures
            final(self).spec_context_id() == Some(context_id@),
            final(self).spec_phase() == old(self).spec_phase(),
            final(self).spec_last_error() == old(self).spec_last_error(),
            final(self).same_identity(old(self)),
    {
        self.context_id = Some(context_id);
    }

    /// Forgets the attached context; nothing else changes.
    pub fn clear_context(&mut self)
        ensures
            final(self).spec_context_id() == None::<Seq<char>>,
            final(self).spec_phase() == old(self).spec_phase(),
            final(self).spec_last_error() == old(self).spec_last_error(),
            final(self).same_identity(old(self)),
    {
        self.context_id = None;
    }

    /// Records `error` as the last error; nothing else changes.
    pub fn record_error(&mut self, error: String)
        ensures
            final(self).spec_last_error() == Some(error@),
            final(self).spec_phase() == old(self).spec_phase(),
            final(self).spec_context_id() == old(self).spec_context_id(),
            final(self).same_identity(old(self)),
    {
        self.last_error = Some(error);
    }

    /// Forgets the last error; nothing else changes.
    pub fn clear_error(&mut self)
        ensures
            final(self).spec_last_error() == None::<Seq<char>>,
            final(self).spec_phase() == old(self).spec_phase(),
            final(self).spec_context_id() == old(self).spec_context_id(),
            final(self).same_identity(old(self)),
    {
        self.last_error = None;
    }

    /// What the runtime reports of itself, given how many modules it runs
    /// and how long it has been up.
    pub fn snapshot(&self, module_count: usize, uptime_ms: u64) -> (s: RuntimeStateSnapshot)
        ensures
            s.runtime_id@ == self.spec_runtime_id(),
            s.runtime_version@ == self.spec_runtime_version(),
            s.phase == self.spec_phase(),
            s.booted_at_unix_ms == self.spec_booted_at(),
            s.uptime_ms == uptime_ms,
            opt_view(s.context_id) == self.spec_context_id(),
            opt_view(s.last_error) == self.spec_last_error(),
            s.module_count == module_count,
    {
        RuntimeStateSnapshot {
            runtime_id: self.runtime_id.clone(),
            runtime_version: self.runtime_version.clone(),
            phase: self.phase,
            booted_at_unix_ms: self.booted_at_unix_ms,
            uptime_ms,
            context_id: clone_opt_string(&self.context_id),
            last_error: clone_opt_string(&self.last_error),
            module_count,
        }
    }

    /// The runtime's id.
    pub fn runtime_id(&self) -> (s: &str)
        ensures
            s@ == self.spec_runtime_id(),
    {
        self.runtime_id.as_str()
    }

    /// The runtime's version.
    pub fn runtime_version(&self) -> (s: &str)
        ensures
            s@ == self.spec_runtime_version(),
    {
        self.runtime_version.as_str()
    }
}

} // verus!
