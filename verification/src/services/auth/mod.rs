pub mod types;

use vstd::prelude::*;
use vstd::string::StringExecFns;
use crate::app::state::{clone_opt_string, opt_view};
use crate::app::error::{runtime_error_text, RuntimeError};
use crate::infrastructure::eventbus::AuthInfo;
use types::{AuthCommandRequest, AuthCommandResponse};

verus! {

/// Phases of the sign-in module.
#[derive(Debug, Clone, Copy, PartialEq, Eq, Structural)]
pub enum AuthPhase {
    Dormant,
    RuntimeStarted,
    ContextReady,
    RuntimeStopped,
}

impl AuthPhase {
    /// The name of a phase in health reports.
    pub open spec fn spec_name(self) -> Seq<char> {
        match self {
            AuthPhase::Dormant => "dormant"@,
            AuthPhase::RuntimeStarted => "runtime_started"@,
            AuthPhase::ContextReady => "context_ready"@,
            AuthPhase::RuntimeStopped => "runtime_stopped"@,
        }
    }

    /// The name of this phase in health reports.
    pub fn as_str(self) -> (s: &'static str)
        ensures
            s@ == self.spec_name(),
    {
        match self {
            AuthPhase::Dormant => "dormant",
            AuthPhase::RuntimeStarted => "runtime_started",
            AuthPhase::ContextReady => "context_ready",
            AuthPhase::RuntimeStopped => "runtime_stopped",
        }
    }
}

/// The sign-in state of nobody.
pub open spec fn spec_anonymous(a: AuthInfo) -> bool {
    &&& !a.is_authenticated
    &&& a.access_token is None
    &&& a.user_info is None
}

/// The sign-in state of nobody.
pub fn anonymous_auth_info() -> (a: AuthInfo)
    ensures
        spec_anonymous(a),
{
    AuthInfo { is_authenticated: false, access_token: None, user_info: None }
}

/// The sign-in state that browsers are told about.
pub struct AuthStateStore {
    auth_info: AuthInfo,
}

impl AuthStateStore {
    /// The stored sign-in state.
    pub closed spec fn spec_auth_info(&self) -> AuthInfo {
        self.auth_info
    }

    /// A store holding the state of nobody.
    pub fn new() -> (s: AuthStateStore)
        ensures
            spec_anonymous(s.spec_auth_info()),
    {
        AuthStateStore { auth_info: anonymous_auth_info() }
    }

    /// A copy of the stored state.
    pub fn snapshot(&self) -> (a: AuthInfo)
        ensures
            a == self.spec_auth_info(),
    {
        self.auth_info.duplicate()
    }

    /// Replaces the stored state.
    pub fn replace(&mut self, auth_info: AuthInfo)
        ensures
            final(self).spec_auth_info() == auth_info,
    {
        self.auth_info = auth_info;
    }

    /// Resets the stored state to that of nobody.
    pub fn clear(&mut self)
        ensures
            spec_anonymous(final(self).spec_auth_info()),
    {
        self.replace(anonymous_auth_info());
    }
}

/// The lifecycle of the sign-in module; the sign-in state itself lives in a
/// store shared with the event bus.
pub struct AuthRuntime {
    phase: AuthPhase,
    last_error: Option<String>,
}

impl AuthRuntime {
    pub closed spec fn spec_phase(&self) -> AuthPhase {
        self.phase
    }

    pub closed spec fn spec_healthy(&self) -> bool {
        self.last_error is None
    }

    /// A dormant module.
    pub fn new() -> (r: AuthRuntime)
        ensures
            r.spec_phase() == AuthPhase::Dormant,
            r.spec_healthy(),
    {
        AuthRuntime { phase: AuthPhase::Dormant, last_error: None }
    }

    /// The module's name.
    pub fn name(&self) -> (s: &'static str)
        ensures
            s@ == "auth"@,
    {
        "auth"
    }

    /// The current phase.
    pub fn phase(&self) -> (p: AuthPhase)
        ensures
            p == self.spec_phase(),
    {
        self.phase
    }

    /// Whether no error is recorded.
    pub fn healthy(&self) -> (b: bool)
        ensures
            b == self.spec_healthy(),
    {
        self.last_error.is_none()
    }

    /// The error recorded last, if any.
    pub closed spec fn spec_last_error(&self) -> Option<Seq<char>> {
        opt_view(self.last_error)
    }

    /// The error recorded last, if any: none exactly when healthy.
    pub fn last_error(&self) -> (e: Option<String>)
        ensures
            opt_view(e) == self.spec_last_error(),
            e is None <==> self.spec_healthy(),
    {
        clone_opt_string(&self.last_error)
    }

    /// On runtime start: forgets any sign-in and is started.
    pub fn on_runtime_start(&mut self, store: &mut AuthStateStore)
        ensures
            final(self).spec_phase() == AuthPhase::RuntimeStarted,
            final(self).spec_healthy(),
            spec_anonymous(final(store).spec_auth_info()),
    {
        store.clear();
        self.phase = AuthPhase::RuntimeStarted;
        self.last_error = None;
    }

    /// On context initialization: only after runtime start. Takes the
    /// context's sign-in state, or that of nobody when it has none.
    pub fn on_context_initialize(&mut self, store: &mut AuthStateStore, auth_info: Option<AuthInfo>) -> (r:
        Result<(), RuntimeError>)
        ensures
            old(self).spec_phase() != AuthPhase::RuntimeStarted ==> (r matches Err(e)
                && e is InvalidState && runtime_error_text(e) == Some(
                "invalid runtime state: "@
                    + "auth runtime requires runtime_started before context init"@,
            )) && *final(self) == *old(self) && *final(store) == *old(store),
            old(self).spec_phase() == AuthPhase::RuntimeStarted ==> r is Ok
                && final(self).spec_phase() == AuthPhase::ContextReady && final(self).spec_healthy()
                == old(self).spec_healthy() && match auth_info {
                Some(a) => final(store).spec_auth_info() == a,
                None => spec_anonymous(final(store).spec_auth_info()),
            },
    {
        if self.phase != AuthPhase::RuntimeStarted {
            return Err(
                RuntimeError::InvalidState(
                    String::from_str("auth runtime requires runtime_started before context init"),
                ),
            );
        }
        self.phase = AuthPhase::ContextReady;
        match auth_info {
            Some(a) => store.replace(a),
            None => store.clear(),
        }
        Ok(())
    }

    /// On context teardown: forgets the sign-in and waits for the next
    /// context.
    pub fn on_context_destroy(&mut self, store: &mut AuthStateStore)
        ensures
            final(self).spec_phase() == AuthPhase::RuntimeStarted,
            final(self).spec_healthy() == old(self).spec_healthy(),
            spec_anonymous(final(store).spec_auth_info()),
    {
        store.clear();
        self.phase = AuthPhase::RuntimeStarted;
    }

    /// On runtime shutdown: forgets the sign-in and is stopped.
    pub fn on_runtime_shutdown(&mut self, store: &mut AuthStateStore)
        ensures
            final(self).spec_phase() == AuthPhase::RuntimeStopped,
            final(self).spec_healthy() == old(self).spec_healthy(),
            spec_anonymous(final(store).spec_auth_info()),
    {
        store.clear();
        self.phase = AuthPhase::RuntimeStopped;
    }

    /// Runs a client command, which needs an initialized context.
    pub fn execute_command(&self, store: &mut AuthStateStore, command: AuthCommandRequest) -> (r:
        Result<AuthCommandResponse, RuntimeError>)
        ensures
            self.spec_phase() != AuthPhase::ContextReady ==> (r matches Err(e) && e is InvalidState
                && runtime_error_text(e) == Some(
                "invalid runtime state: "@ + "auth runtime requires initialized context"@,
            )) && *final(store) == *old(store),
            self.spec_phase() == AuthPhase::ContextReady ==> match command {
                AuthCommandRequest::SetAuthState { auth_info } => r matches Ok(
                    AuthCommandResponse::Ack,
                ) && final(store).spec_auth_info() == auth_info,
                AuthCommandRequest::ClearAuthState => r matches Ok(AuthCommandResponse::Ack)
                    && spec_anonymous(final(store).spec_auth_info()),
                AuthCommandRequest::GetAuthState => (r matches Ok(
                    AuthCommandResponse::State { auth_info },
                ) && auth_info == old(store).spec_auth_info()) && *final(store) == *old(store),
            },
    {
        if self.phase != AuthPhase::ContextReady {
            return Err(
                RuntimeError::InvalidState(
                    String::from_str("auth runtime requires initialized context"),
                ),
            );
        }
        match command {
            AuthCommandRequest::SetAuthState { auth_info } => {
                store.replace(auth_info);
                Ok(AuthCommandResponse::Ack)
            },
            AuthCommandRequest::ClearAuthState => {
                store.clear();
                Ok(AuthCommandResponse::Ack)
            },
            AuthCommandRequest::GetAuthState => Ok(
                AuthCommandResponse::State { auth_info: store.snapshot() },
            ),
        }
    }
}

} // verus!
