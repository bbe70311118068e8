use vstd::prelude::*;
use vstd::string::StringExecFns;
use super::error::{runtime_error_text, runtime_text_fits, RuntimeError};
use super::state::{RuntimePhase, RuntimeStateStore};
use crate::infrastructure::ipc::{Message, Topic};
use crate::infrastructure::ipc::error::ErrorCode;
use crate::infrastructure::eventbus::message::MessageType;
use super::error::spec_error_code;
use crate::text::{decimal, push_decimal};

verus! {

/// What the host tells the request loop after handling a request.
#[derive(Debug, Clone, Copy, PartialEq, Eq, Structural)]
pub enum DispatchControl {
    Continue,
    Shutdown,
}

/// A handled request: the response to send and whether the loop goes on.
#[derive(Debug)]
pub struct DispatchResult {
    pub response: Message,
    pub control: DispatchControl,
}

/// The failed response to `request`, which ended in `error`: it answers the
/// request's id and topic with the error's status code and the given body.
pub fn error_response_for(request: &Message, error: &RuntimeError, body: Vec<u8>) -> (m: Message)
    ensures
        m.msg_id == request.msg_id,
        m.msg_type == MessageType::Response,
        m.topic == request.topic,
        m.error_code == spec_error_code(*error).spec_as_i32(),
        m.data@ == body@,
{
    Message::response(request.msg_id, request.topic, error.code(), body)
}

/// The lifecycle state of the runtime host, as contracts see it.
pub struct LifecycleView {
    pub phase: RuntimePhase,
    pub context_id: Option<Seq<char>>,
    pub last_error: Option<Seq<char>>,
    pub next_sequence: u64,
}

/// The sequence number after `s`, wrapping at `u64::MAX`.
pub open spec fn following_sequence(s: u64) -> u64 {
    if s == u64::MAX { 0 } else { (s + 1) as u64 }
}

/// The id of the context created with sequence number `s`.
pub open spec fn context_id_text(s: u64) -> Seq<char> {
    "context-"@ + decimal(s as nat)
}

/// The id of the context created with sequence number `sequence`.
pub fn context_id_for(sequence: u64) -> (id: String)
    ensures
        id@ == context_id_text(sequence),
{
    let mut id = String::from_str("context-");
    push_decimal(&mut id, sequence);
    id
}

/// The invariant of the lifecycle: a context is attached exactly while the
/// runtime is ready or destroying it (and, during shutdown, until it is
/// torn down).
pub open spec fn lifecycle_wf(v: LifecycleView) -> bool {
    match v.phase {
        RuntimePhase::Ready | RuntimePhase::Destroying => v.context_id is Some,
        RuntimePhase::ShuttingDown => true,
        _ => v.context_id is None,
    }
}

/// The state after the modules have started.
pub open spec fn after_started(v: LifecycleView) -> LifecycleView {
    LifecycleView { phase: RuntimePhase::Uninitialized, last_error: None, ..v }
}

/// The state once a context initialization has been accepted.
pub open spec fn after_initialize_accepted(v: LifecycleView) -> LifecycleView {
    LifecycleView {
        phase: RuntimePhase::Initializing,
        last_error: None,
        next_sequence: following_sequence(v.next_sequence),
        ..v
    }
}

/// The state once every module has taken the context `id`.
pub open spec fn after_initialized(v: LifecycleView, id: Seq<char>) -> LifecycleView {
    LifecycleView { phase: RuntimePhase::Ready, context_id: Some(id), ..v }
}

/// The state once a module has refused the context, with the error text.
pub open spec fn after_initialize_failed(v: LifecycleView, text: Seq<char>) -> LifecycleView {
    LifecycleView { phase: RuntimePhase::Uninitialized, last_error: Some(text), ..v }
}

/// The state once a destroy has been accepted.
pub open spec fn after_destroy_accepted(v: LifecycleView) -> LifecycleView {
    LifecycleView { phase: RuntimePhase::Destroying, ..v }
}

/// The state once every module has let go of the context.
pub open spec fn after_destroyed(v: LifecycleView) -> LifecycleView {
    LifecycleView { phase: RuntimePhase::Uninitialized, context_id: None, ..v }
}

/// The state once a module has failed to let go of the context.
pub open spec fn after_destroy_failed(v: LifecycleView, text: Seq<char>) -> LifecycleView {
    LifecycleView { phase: RuntimePhase::Ready, last_error: Some(text), ..v }
}

/// The state once a shutdown has begun.
pub open spec fn after_shutdown_begun(v: LifecycleView) -> LifecycleView {
    LifecycleView { phase: RuntimePhase::ShuttingDown, ..v }
}

/// The state once the context has been torn down during shutdown.
pub open spec fn after_shutdown_context(v: LifecycleView, error: Option<Seq<char>>) -> LifecycleView {
    LifecycleView {
        context_id: None,
        last_error: match error {
            Some(t) => Some(t),
            None => v.last_error,
        },
        ..v
    }
}

/// The state once every module has shut down.
pub open spec fn after_stopped(v: LifecycleView) -> LifecycleView {
    LifecycleView { phase: RuntimePhase::Stopped, ..v }
}

/// The state once a module has failed to shut down.
pub open spec fn after_stop_failed(v: LifecycleView, text: Seq<char>) -> LifecycleView {
    LifecycleView { phase: RuntimePhase::Failed, last_error: Some(text), ..v }
}

/// How a shutdown proceeds.
#[derive(Debug, Clone, Copy, PartialEq, Eq, Structural)]
pub enum ShutdownPlan {
    /// The runtime is already stopped or stopping: nothing to do.
    AlreadyStopped,
    /// Tear the context down, then shut the modules down.
    DestroyContextFirst,
    /// Shut the modules down.
    ShutdownModules,
}

/// The decisions of the runtime host: which lifecycle requests it accepts,
/// and what state each outcome of the modules' work leaves it in.
pub struct RuntimeLifecycle {
    state: RuntimeStateStore,
    context_sequence: u64,
}

impl View for RuntimeLifecycle {
    type V = LifecycleView;

    closed spec fn view(&self) -> LifecycleView {
        LifecycleView {
            phase: self.state.spec_phase(),
            context_id: self.state.spec_context_id(),
            last_error: self.state.spec_last_error(),
            next_sequence: self.context_sequence,
        }
    }
}

impl RuntimeLifecycle {
    /// The state store the decisions act on.
    pub closed spec fn spec_store(&self) -> RuntimeStateStore {
        self.state
    }

    /// A host that is booting, has no context, and will number its first
    /// context 1.
    pub fn new(runtime_id: String, runtime_version: String, booted_at_unix_ms: u64) -> (l: Self)
        ensures
            l@ == (LifecycleView {
                phase: RuntimePhase::Booting,
                context_id: None,
                last_error: None,
                next_sequence: 1,
            }),
            lifecycle_wf(l@),
            l.spec_store().spec_runtime_id() == runtime_id@,
            l.spec_store().spec_runtime_version() == runtime_version@,
            l.spec_store().spec_booted_at() == booted_at_unix_ms,
    {
        RuntimeLifecycle {
            state: RuntimeStateStore::new(runtime_id, runtime_version, booted_at_unix_ms),
            context_sequence: 1,
        }
    }

    /// The state store, to read from.
    pub fn state(&self) -> (s: &RuntimeStateStore)
        ensures
            *s == self.spec_store(),
            s.spec_phase() == self@.phase,
            s.spec_context_id() == self@.context_id,
            s.spec_last_error() == self@.last_error,
    {
        &self.state
    }

    /// Whether the host may start: only from `Booting`.
    pub fn begin_start(&self) -> (r: Result<(), RuntimeError>)
        ensures
            r is Ok <==> self@.phase == RuntimePhase::Booting,
            r matches Err(e) ==> e is InvalidState && runtime_error_text(e) == Some(
                "invalid runtime state: "@ + "runtime host can only start from booting phase"@,
            ),
    {
        if self.state.phase() != RuntimePhase::Booting {
            return Err(
                RuntimeError::InvalidState(
                    String::from_str("runtime host can only start from booting phase"),
                ),
            );
        }
        Ok(())
    }

    /// Takes the outcome of starting the modules: on success the host is
    /// uninitialized with no error recorded; a failure is passed on and
    /// changes nothing.
    pub fn complete_start(&mut self, outcome: Result<(), RuntimeError>) -> (r: Result<
        (),
        RuntimeError,
    >)
        requires
            old(self)@.phase == RuntimePhase::Booting,
            lifecycle_wf(old(self)@),
        ensures
            r == outcome,
            outcome is Ok ==> final(self)@ == after_started(old(self)@),
            outcome is Err ==> final(self)@ == old(self)@,
            lifecycle_wf(final(self)@),
            final(self).spec_store().same_identity(&old(self).spec_store()),
    {
        if outcome.is_ok() {
            self.state.clear_error();
            self.state.transition(RuntimePhase::Uninitialized);
        }
        outcome
    }

    /// Accepts or refuses a request to initialize a context. When accepted
    /// the host is initializing and the sequence number of the new context is
    /// returned.
    pub fn begin_initialize(&mut self) -> (r: Result<u64, RuntimeError>)
        requires
            lifecycle_wf(old(self)@),
        ensures
            lifecycle_wf(final(self)@),
            final(self).spec_store().same_identity(&old(self).spec_store()),
            old(self)@.phase == RuntimePhase::Ready ==> (r matches Err(e)
                && e is AlreadyInitialized) && final(self)@ == old(self)@,
            old(self)@.phase != RuntimePhase::Ready && old(self)@.phase
                != RuntimePhase::Uninitialized ==> (r matches Err(e) && e is InvalidState
                && runtime_error_text(e) == Some(
                "invalid runtime state: "@ + "cannot initialize context from phase "@
                    + old(self)@.phase.spec_debug_name(),
            )) && final(self)@ == old(self)@,
            old(self)@.phase == RuntimePhase::Uninitialized ==> r == Ok::<u64, RuntimeError>(
                old(self)@.next_sequence,
            ) && final(self)@ == after_initialize_accepted(old(self)@),
    {
        let phase = self.state.phase();
        if phase == RuntimePhase::Ready {
            return Err(RuntimeError::AlreadyInitialized);
        }
        if phase != RuntimePhase::Uninitialized {
            let mut text = String::from_str("cannot initialize context from phase ");
            text.append(phase.debug_name());
            return Err(RuntimeError::InvalidState(text));
        }
        self.state.transition(RuntimePhase::Initializing);
        self.state.clear_error();
        let sequence = self.context_sequence;
        self.context_sequence = if sequence == u64::MAX { 0 } else { sequence + 1 };
        Ok(sequence)
    }

    /// Takes the outcome of handing context `context_id` to the modules: on
    /// success the context is attached and the host is ready; on failure the
    /// error is recorded, the host goes back to uninitialized, and the error
    /// is passed on.
    pub fn complete_initialize(&mut self, context_id: String, outcome: Result<(), RuntimeError>) -> (r:
        Result<(), RuntimeError>)
        requires
            old(self)@.phase == RuntimePhase::Initializing,
            lifecycle_wf(old(self)@),
        ensures
            r == outcome,
            lifecycle_wf(final(self)@),
            final(self).spec_store().same_identity(&old(self).spec_store()),
            outcome is Ok ==> final(self)@ == after_initialized(old(self)@, context_id@),
            outcome matches Err(e) ==> exists|t: Seq<char>| final(self)@ == after_initialize_failed(old(self)@, t)
                && runtime_text_fits(e, t),
    {
        let ghost before = self@;
        match &outcome {
            Ok(()) => {
                self.state.attach_context(context_id);
                self.state.transition(RuntimePhase::Ready);
            },
            Err(e) => {
                let text = e.to_string();
                let ghost t = text@;
                self.state.record_error(text);
                self.state.transition(RuntimePhase::Uninitialized);
                assert(self@ == after_initialize_failed(before, t));
            },
        }
        outcome
    }

    /// Accepts or refuses a request to destroy the context. When accepted
    /// the host is destroying it and the context's id is returned.
    pub fn begin_destroy(&mut self) -> (r: Result<String, RuntimeError>)
        requires
            lifecycle_wf(old(self)@),
        ensures
            lifecycle_wf(final(self)@),
            final(self).spec_store().same_identity(&old(self).spec_store()),
            old(self)@.context_id is None ==> (r matches Err(e) && e is NotInitialized)
                && final(self)@ == old(self)@,
            old(self)@.context_id matches Some(id) ==> (r matches Ok(s) && s@ == id)
                && final(self)@ == after_destroy_accepted(old(self)@),
    {
        match &self.state.context_id_ref() {
            None => Err(RuntimeError::NotInitialized),
            Some(id) => {
                let id = id.clone();
                self.state.transition(RuntimePhase::Destroying);
                Ok(id)
            },
        }
    }

    /// Takes the outcome of the modules letting go of the context: on
    /// success it is detached and the host is uninitialized; on failure the
    /// error is recorded, the host stays ready with its context, and the
    /// error is passed on.
    pub fn complete_destroy(&mut self, outcome: Result<(), RuntimeError>) -> (r: Result<
        (),
        RuntimeError,
    >)
        requires
            old(self)@.phase == RuntimePhase::Destroying,
            lifecycle_wf(old(self)@),
        ensures
            r == outcome,
            lifecycle_wf(final(self)@),
            final(self).spec_store().same_identity(&old(self).spec_store()),
            outcome is Ok ==> final(self)@ == after_destroyed(old(self)@),
            outcome matches Err(e) ==> exists|t: Seq<char>| final(self)@ == after_destroy_failed(old(self)@, t)
                && runtime_text_fits(e, t),
    {
        let ghost before = self@;
        match &outcome {
            Ok(()) => {
                self.state.clear_context();
                self.state.transition(RuntimePhase::Uninitialized);
            },
            Err(e) => {
                let text = e.to_string();
                let ghost t = text@;
                self.state.record_error(text);
                self.state.transition(RuntimePhase::Ready);
                assert(self@ == after_destroy_failed(before, t));
            },
        }
        outcome
    }

    /// Decides how a shutdown proceeds. Unless the host is already stopped
    /// or stopping, it is now shutting down.
    pub fn begin_shutdown(&mut self) -> (plan: ShutdownPlan)
        requires
            lifecycle_wf(old(self)@),
        ensures
            lifecycle_wf(final(self)@),
            final(self).spec_store().same_identity(&old(self).spec_store()),
            (old(self)@.phase == RuntimePhase::Stopped || old(self)@.phase
                == RuntimePhase::ShuttingDown) ==> plan == ShutdownPlan::AlreadyStopped
                && final(self)@ == old(self)@,
            !(old(self)@.phase == RuntimePhase::Stopped || old(self)@.phase
                == RuntimePhase::ShuttingDown) ==> final(self)@ == after_shutdown_begun(old(self)@)
                && (plan == if old(self)@.context_id is Some {
                ShutdownPlan::DestroyContextFirst
            } else {
                ShutdownPlan::ShutdownModules
            }),
    {
        let phase = self.state.phase();
        if phase == RuntimePhase::Stopped || phase == RuntimePhase::ShuttingDown {
            return ShutdownPlan::AlreadyStopped;
        }
        self.state.transition(RuntimePhase::ShuttingDown);
        if self.state.context_id_ref().is_some() {
            ShutdownPlan::DestroyContextFirst
        } else {
            ShutdownPlan::ShutdownModules
        }
    }

    /// Takes the outcome of tearing the context down during shutdown: the
    /// context is detached either way, and a failure is recorded.
    pub fn complete_shutdown_context(&mut self, outcome: Result<(), RuntimeError>)
        requires
            old(self)@.phase == RuntimePhase::ShuttingDown,
            lifecycle_wf(old(self)@),
        ensures
            lifecycle_wf(final(self)@),
            final(self).spec_store().same_identity(&old(self).spec_store()),
            outcome is Ok ==> final(self)@ == after_shutdown_context(old(self)@, None),
            outcome matches Err(e) ==> exists|t: Seq<char>| final(self)@ == after_shutdown_context(old(self)@, Some(t))
                && runtime_text_fits(e, t),
    {
        let ghost before = self@;
        match &outcome {
            Ok(()) => {
                self.state.clear_context();
            },
            Err(e) => {
                let text = e.to_string();
                let ghost t = text@;
                self.state.record_error(text);
                self.state.clear_context();
                assert(self@ == after_shutdown_context(before, Some(t)));
            },
        }
    }

    /// Takes the outcome of shutting the modules down: on success the host
    /// is stopped; on failure the error is recorded, the host has failed,
    /// and the error is passed on.
    pub fn complete_shutdown(&mut self, outcome: Result<(), RuntimeError>) -> (r: Result<
        (),
        RuntimeError,
    >)
        requires
            old(self)@.phase == RuntimePhase::ShuttingDown,
            old(self)@.context_id is None,
        ensures
            r == outcome,
            lifecycle_wf(final(self)@),
            final(self).spec_store().same_identity(&old(self).spec_store()),
            outcome is Ok ==> final(self)@ == after_stopped(old(self)@),
            outcome matches Err(e) ==> exists|t: Seq<char>| final(self)@ == after_stop_failed(old(self)@, t)
                && runtime_text_fits(e, t),
    {
        let ghost before = self@;
        match &outcome {
            Ok(()) => {
                self.state.transition(RuntimePhase::Stopped);
            },
            Err(e) => {
                let text = e.to_string();
                let ghost t = text@;
                self.state.record_error(text);
                self.state.transition(RuntimePhase::Failed);
                assert(self@ == after_stop_failed(before, t));
            },
        }
        outcome
    }
}

} // verus!

verus! {

/// A context that is initialized and then destroyed, with every module
/// agreeing, leaves the host uninitialized with no context and no error, one
/// sequence number further on; while it lived, the host was ready with that
/// context attached.
pub proof fn lemma_initialize_destroy_roundtrip(v: LifecycleView, id: Seq<char>)
    requires
        v.phase == RuntimePhase::Uninitialized,
        lifecycle_wf(v),
    ensures
        ({
            let ready = after_initialized(after_initialize_accepted(v), id);
            let done = after_destroyed(after_destroy_accepted(ready));
            &&& ready.phase == RuntimePhase::Ready
            &&& ready.context_id == Some(id)
            &&& lifecycle_wf(ready)
            &&& done.phase == RuntimePhase::Uninitialized
            &&& done.context_id is None
            &&& done.last_error is None
            &&& done.next_sequence == following_sequence(v.next_sequence)
            &&& lifecycle_wf(done)
        }),
{
}

/// A context that a module refuses leaves the host uninitialized, with no
/// context attached and the refusal recorded.
pub proof fn lemma_initialize_failure_rolls_back(v: LifecycleView, text: Seq<char>)
    requires
        v.phase == RuntimePhase::Uninitialized,
        lifecycle_wf(v),
    ensures
        ({
            let after = after_initialize_failed(after_initialize_accepted(v), text);
            &&& after.phase == RuntimePhase::Uninitialized
            &&& after.context_id is None
            &&& after.last_error == Some(text)
            &&& lifecycle_wf(after)
        }),
{
}

/// Two contexts created one after the other get different ids.
pub proof fn lemma_context_ids_distinct(s: u64)
    ensures
        context_id_text(s) != context_id_text(following_sequence(s)),
{
    let t = following_sequence(s);
    assert(t != s);
    if context_id_text(s) == context_id_text(t) {
        let p = "context-"@;
        assert(decimal(s as nat) =~= context_id_text(s).subrange(p.len() as int, context_id_text(s).len() as int));
        assert(decimal(t as nat) =~= context_id_text(t).subrange(p.len() as int, context_id_text(t).len() as int));
        crate::text::lemma_decimal_injective(s as nat, t as nat);
    }
}

/// A shutdown that runs to completion, with or without a context to tear
/// down first, leaves the host stopped with no context attached; the
/// invariant holds at every step.
pub proof fn lemma_shutdown_completes(v: LifecycleView, context_error: Option<Seq<char>>)
    requires
        lifecycle_wf(v),
        v.phase != RuntimePhase::Stopped,
        v.phase != RuntimePhase::ShuttingDown,
    ensures
        ({
            let begun = after_shutdown_begun(v);
            let torn = if v.context_id is Some {
                after_shutdown_context(begun, context_error)
            } else {
                begun
            };
            let done = after_stopped(torn);
            &&& lifecycle_wf(begun)
            &&& lifecycle_wf(torn)
            &&& torn.context_id is None
            &&& done.phase == RuntimePhase::Stopped
            &&& done.context_id is None
            &&& lifecycle_wf(done)
        }),
{
}

} // verus!

verus! {

/// The handler a request goes to.
#[derive(Debug, Clone, Copy, PartialEq, Eq, Structural)]
pub enum RequestRoute {
    Handshake,
    Ping,
    QueryState,
    QueryHealth,
    InitializeContext,
    DestroyContext,
    Shutdown,
    EnvironmentCommand,
    SyncCommand,
    AuthCommand,
}

impl RequestRoute {
    /// Whether the request loop goes on after this request: it stops only
    /// after a shutdown.
    pub fn control(&self) -> (c: DispatchControl)
        ensures
            c == (if *self == RequestRoute::Shutdown {
                DispatchControl::Shutdown
            } else {
                DispatchControl::Continue
            }),
    {
        match self {
            RequestRoute::Shutdown => DispatchControl::Shutdown,
            _ => DispatchControl::Continue,
        }
    }
}

/// The handler of each request topic; runtime events and unknown topics
/// have none.
pub open spec fn spec_route(topic: Topic) -> Option<RequestRoute> {
    match topic {
        Topic::Handshake => Some(RequestRoute::Handshake),
        Topic::Ping => Some(RequestRoute::Ping),
        Topic::QueryState => Some(RequestRoute::QueryState),
        Topic::QueryHealth => Some(RequestRoute::QueryHealth),
        Topic::InitializeContext => Some(RequestRoute::InitializeContext),
        Topic::DestroyContext => Some(RequestRoute::DestroyContext),
        Topic::Shutdown => Some(RequestRoute::Shutdown),
        Topic::EnvironmentCommand => Some(RequestRoute::EnvironmentCommand),
        Topic::SyncCommand => Some(RequestRoute::SyncCommand),
        Topic::AuthCommand => Some(RequestRoute::AuthCommand),
        Topic::RuntimeEvent => None,
        Topic::Unknown(_) => None,
    }
}

/// Picks the handler of a request by its topic. An inbound runtime event or
/// an unknown topic is refused as an invalid state.
pub fn route_request(topic: Topic) -> (r: Result<RequestRoute, RuntimeError>)
    ensures
        spec_route(topic) matches Some(route) ==> r == Ok::<RequestRoute, RuntimeError>(route),
        spec_route(topic) is None ==> (r matches Err(e) && e is InvalidState),
        topic is RuntimeEvent ==> (r matches Err(e) && runtime_error_text(e) == Some(
            "invalid runtime state: "@ + "runtime does not accept inbound runtime_event frames"@,
        )),
        topic matches Topic::Unknown(v) ==> (r matches Err(e) && runtime_error_text(e) == Some(
            "invalid runtime state: "@ + "unknown topic: "@ + decimal(v as nat),
        )),
{
    match topic {
        Topic::Handshake => Ok(RequestRoute::Handshake),
        Topic::Ping => Ok(RequestRoute::Ping),
        Topic::QueryState => Ok(RequestRoute::QueryState),
        Topic::QueryHealth => Ok(RequestRoute::QueryHealth),
        Topic::InitializeContext => Ok(RequestRoute::InitializeContext),
        Topic::DestroyContext => Ok(RequestRoute::DestroyContext),
        Topic::Shutdown => Ok(RequestRoute::Shutdown),
        Topic::EnvironmentCommand => Ok(RequestRoute::EnvironmentCommand),
        Topic::SyncCommand => Ok(RequestRoute::SyncCommand),
        Topic::AuthCommand => Ok(RequestRoute::AuthCommand),
        Topic::RuntimeEvent => Err(
            RuntimeError::InvalidState(
                String::from_str("runtime does not accept inbound runtime_event frames"),
            ),
        ),
        Topic::Unknown(value) => {
            let mut text = String::from_str("unknown topic: ");
            push_decimal(&mut text, value as u64);
            Err(RuntimeError::InvalidState(text))
        },
    }
}


/// Every request goes to the handler of the topic it names, and to no
/// other: two request topics never share a handler, and runtime events and
/// unknown topics go to none. Only a shutdown request ends the request
/// loop.
pub proof fn lemma_requests_reach_their_handler(t: Topic)
    ensures
        spec_route(t) == Some(RequestRoute::Handshake) <==> t == Topic::Handshake,
        spec_route(t) == Some(RequestRoute::Ping) <==> t == Topic::Ping,
        spec_route(t) == Some(RequestRoute::QueryState) <==> t == Topic::QueryState,
        spec_route(t) == Some(RequestRoute::QueryHealth) <==> t == Topic::QueryHealth,
        spec_route(t) == Some(RequestRoute::InitializeContext) <==> t == Topic::InitializeContext,
        spec_route(t) == Some(RequestRoute::DestroyContext) <==> t == Topic::DestroyContext,
        spec_route(t) == Some(RequestRoute::Shutdown) <==> t == Topic::Shutdown,
        spec_route(t) == Some(RequestRoute::EnvironmentCommand) <==> t == Topic::EnvironmentCommand,
        spec_route(t) == Some(RequestRoute::SyncCommand) <==> t == Topic::SyncCommand,
        spec_route(t) == Some(RequestRoute::AuthCommand) <==> t == Topic::AuthCommand,
        spec_route(t) is None <==> (t is RuntimeEvent || t is Unknown),
        spec_route(t) matches Some(r) ==> ((r == RequestRoute::Shutdown) <==> t == Topic::Shutdown),
{
}

} // verus!
