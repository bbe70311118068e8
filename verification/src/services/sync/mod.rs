pub mod types;

use vstd::prelude::*;
use vstd::string::StringExecFns;
use crate::app::error::{runtime_error_text, RuntimeError};
use crate::app::state::{clone_opt_string, opt_view};
use crate::infrastructure::eventbus::manager::{clone_strings, views, EventBusState};
use types::{RunningEnvironment, SyncCommandRequest, SyncCommandResponse};

verus! {

/// Phases of the sync module.
#[derive(Debug, Clone, Copy, PartialEq, Eq, Structural)]
pub enum SyncModulePhase {
    Dormant,
    RuntimeStarted,
    ContextReady,
    RuntimeStopped,
}

impl SyncModulePhase {
    /// The name of a phase in health reports.
    pub open spec fn spec_name(self) -> Seq<char> {
        match self {
            SyncModulePhase::Dormant => "dormant"@,
            SyncModulePhase::RuntimeStarted => "runtime_started"@,
            SyncModulePhase::ContextReady => "context_ready"@,
            SyncModulePhase::RuntimeStopped => "runtime_stopped"@,
        }
    }

    /// The name of this phase in health reports.
    pub fn as_str(self) -> (s: &'static str)
        ensures
            s@ == self.spec_name(),
    {
        match self {
            SyncModulePhase::Dormant => "dormant",
            SyncModulePhase::RuntimeStarted => "runtime_started",
            SyncModulePhase::ContextReady => "context_ready",
            SyncModulePhase::RuntimeStopped => "runtime_stopped",
        }
    }
}

/// The role byte that tells a browser to lead input synchronization.
pub const SYNC_ROLE_MASTER: u8 = 1;

/// The role byte that tells a browser to follow.
pub const SYNC_ROLE_SLAVE: u8 = 2;

/// The role byte that tells a browser to stop synchronizing.
pub const SYNC_ROLE_NONE: u8 = 0;

/// The role notices of a start: the leader first, then each follower in
/// order.
pub open spec fn start_notices(master: Seq<char>, slaves: Seq<Seq<char>>) -> Seq<(Seq<char>, u8)> {
    seq![(master, SYNC_ROLE_MASTER)] + slaves.map_values(|s: Seq<char>| (s, SYNC_ROLE_SLAVE))
}

/// The role notices of a stop: the leader (if any) first, then each
/// follower in order, all told to stop.
pub open spec fn stop_notices(master: Option<Seq<char>>, slaves: Seq<Seq<char>>) -> Seq<(Seq<char>, u8)> {
    let lead: Seq<Seq<char>> = match master {
        Some(m) => seq![m],
        None => Seq::empty(),
    };
    (lead + slaves).map_values(|s: Seq<char>| (s, SYNC_ROLE_NONE))
}

/// The views of a list of role notices.
pub open spec fn notice_views(v: Seq<(String, u8)>) -> Seq<(Seq<char>, u8)> {
    v.map_values(|n: (String, u8)| (n.0@, n.1))
}

/// The running environments as the sync module lists them: each connected
/// environment, named by its id, with status `running`.
pub open spec fn spec_running(connected: Seq<Seq<char>>, listed: Seq<RunningEnvironment>) -> bool {
    &&& listed.len() == connected.len()
    &&& forall|i: int|
        0 <= i < connected.len() ==> {
            &&& (#[trigger] listed[i]).uuid@ == connected[i]
            &&& listed[i].name@ == connected[i]
            &&& listed[i].status@ == "running"@
        }
}

/// The running environments, given the connected ones.
pub fn running_environments(connected: &Vec<String>) -> (r: Vec<RunningEnvironment>)
    ensures
        spec_running(views(connected@), r@),
{
    let mut r: Vec<RunningEnvironment> = Vec::new();
    let mut k: usize = 0;
    while k < connected.len()
        invariant
            k <= connected@.len(),
            spec_running(views(connected@).subrange(0, k as int), r@),
        decreases connected@.len() - k,
    {
        let uuid = connected[k].clone();
        r.push(
            RunningEnvironment {
                name: uuid.clone(),
                uuid,
                status: String::from_str("running"),
            },
        );
        k = k + 1;
        assert(views(connected@).subrange(0, k as int)[k - 1] == connected@[k - 1]@);
    }
    assert(views(connected@).subrange(0, connected@.len() as int) =~= views(connected@));
    r
}

/// The input-synchronization module: which environment leads and which
/// follow, kept alongside the event bus's copy.
pub struct SyncRuntimeModule {
    phase: SyncModulePhase,
    sync_running: bool,
    master_env_id: Option<String>,
    slave_env_ids: Vec<String>,
    last_error: Option<String>,
}

impl SyncRuntimeModule {
    pub closed spec fn spec_phase(&self) -> SyncModulePhase {
        self.phase
    }

    pub closed spec fn spec_running(&self) -> bool {
        self.sync_running
    }

    pub closed spec fn spec_master(&self) -> Option<Seq<char>> {
        opt_view(self.master_env_id)
    }

    pub closed spec fn spec_slaves(&self) -> Seq<Seq<char>> {
        views(self.slave_env_ids@)
    }

    pub closed spec fn spec_healthy(&self) -> bool {
        self.last_error is None
    }

    /// Whether the module holds no synchronization.
    pub open spec fn idle(&self) -> bool {
        &&& !self.spec_running()
        &&& self.spec_master() is None
        &&& self.spec_slaves() == Seq::<Seq<char>>::empty()
    }

    /// A dormant module with no synchronization.
    pub fn new() -> (m: SyncRuntimeModule)
        ensures
            m.spec_phase() == SyncModulePhase::Dormant,
            m.idle(),
            m.spec_healthy(),
    {
        let m = SyncRuntimeModule {
            phase: SyncModulePhase::Dormant,
            sync_running: false,
            master_env_id: None,
            slave_env_ids: Vec::new(),
            last_error: None,
        };
        assert(m.spec_slaves() =~= Seq::<Seq<char>>::empty());
        m
    }

    /// The module's name.
    pub fn name(&self) -> (s: &'static str)
        ensures
            s@ == "sync"@,
    {
        "sync"
    }

    /// The current phase.
    pub fn phase(&self) -> (p: SyncModulePhase)
        ensures
            p == self.spec_phase(),
    {
        self.phase
    }

    /// Whether no error is recorded.
    pub fn healthy(&self) -> (b: bool)
        ensures
            b == self.spec_healthy(),
    {
        self.last_error.is_none()
    }

    /// The error recorded last, if any.
    pub closed spec fn spec_last_error(&self) -> Option<Seq<char>> {
        opt_view(self.last_error)
    }

    /// The error recorded last, if any: none exactly when healthy.
    pub fn last_error(&self) -> (e: Option<String>)
        ensures
            opt_view(e) == self.spec_last_error(),
            e is None <==> self.spec_healthy(),
    {
        clone_opt_string(&self.last_error)
    }

    /// Whether synchronization runs, and between which environments.
    pub fn sync_state(&self) -> (r: (bool, Option<String>, Vec<String>))
        ensures
            r.0 == self.spec_running(),
            opt_view(r.1) == self.spec_master(),
            views(r.2@) == self.spec_slaves(),
    {
        (self.sync_running, clone_opt_string(&self.master_env_id), clone_strings(&self.slave_env_ids))
    }

    fn reset_sync(&mut self)
        ensures
            final(self).idle(),
            final(self).spec_phase() == old(self).spec_phase(),
            final(self).spec_healthy() == old(self).spec_healthy(),
    {
        self.sync_running = false;
        self.master_env_id = None;
        self.slave_env_ids = Vec::new();
        assert(self.spec_slaves() =~= Seq::<Seq<char>>::empty());
    }

    /// On runtime start: no synchronization, no error, started.
    pub fn on_runtime_start(&mut self)
        ensures
            final(self).spec_phase() == SyncModulePhase::RuntimeStarted,
            final(self).idle(),
            final(self).spec_healthy(),
    {
        self.phase = SyncModulePhase::RuntimeStarted;
        self.reset_sync();
        self.last_error = None;
    }

    /// On context initialization: only after runtime start; no
    /// synchronization, no error, ready.
    pub fn on_context_initialize(&mut self) -> (r: Result<(), RuntimeError>)
        ensures
            old(self).spec_phase() != SyncModulePhase::RuntimeStarted ==> (r matches Err(e)
                && e is InvalidState && runtime_error_text(e) == Some(
                "invalid runtime state: "@
                    + "sync module requires runtime_started before context init"@,
            )) && *final(self) == *old(self),
            old(self).spec_phase() == SyncModulePhase::RuntimeStarted ==> r is Ok
                && final(self).spec_phase() == SyncModulePhase::ContextReady && final(self).idle()
                && final(self).spec_healthy(),
    {
        if self.phase != SyncModulePhase::RuntimeStarted {
            return Err(
                RuntimeError::InvalidState(
                    String::from_str("sync module requires runtime_started before context init"),
                ),
            );
        }
        self.phase = SyncModulePhase::ContextReady;
        self.reset_sync();
        self.last_error = None;
        Ok(())
    }

    /// Starts synchronization: the event bus and this module record the
    /// leader and followers, and the returned notices (to be sent as
    /// `SyncRole` events, failures ignored) tell each browser its role.
    pub fn start_sync(&mut self, bus: &mut EventBusState, master_env_id: String, slave_env_ids: Vec<
        String,
    >) -> (notices: Vec<(String, u8)>)
        ensures
            final(bus).spec_sync_master() == Some(master_env_id@),
            final(bus).spec_sync_slaves() == views(slave_env_ids@),
            final(bus).spec_connected() == old(bus).spec_connected(),
            final(self).spec_running(),
            final(self).spec_master() == Some(master_env_id@),
            final(self).spec_slaves() == views(slave_env_ids@),
            final(self).spec_healthy(),
            final(self).spec_phase() == old(self).spec_phase(),
            notice_views(notices@) == start_notices(master_env_id@, views(slave_env_ids@)),
    {
        bus.set_sync_state(Some(master_env_id.clone()), clone_strings(&slave_env_ids));
        let mut notices: Vec<(String, u8)> = Vec::new();
        notices.push((master_env_id.clone(), SYNC_ROLE_MASTER));
        let mut k: usize = 0;
        while k < slave_env_ids.len()
            invariant
                k <= slave_env_ids@.len(),
                notice_views(notices@) == start_notices(
                    master_env_id@,
                    views(slave_env_ids@).subrange(0, k as int),
                ),
            decreases slave_env_ids@.len() - k,
        {
            let ghost prev = notices@;
            notices.push((slave_env_ids[k].clone(), SYNC_ROLE_SLAVE));
            k = k + 1;
            proof {
                let sv = views(slave_env_ids@);
                assert(sv.subrange(0, k as int) =~= sv.subrange(0, k - 1).push(sv[k - 1]));
                assert(notice_views(notices@) =~= notice_views(prev).push((sv[k - 1], SYNC_ROLE_SLAVE)));
                assert(start_notices(master_env_id@, sv.subrange(0, k as int)) =~= start_notices(
                    master_env_id@,
                    sv.subrange(0, k - 1),
                ).push((sv[k - 1], SYNC_ROLE_SLAVE)));
            }
        }
        assert(views(slave_env_ids@).subrange(0, slave_env_ids@.len() as int) =~= views(
            slave_env_ids@,
        ));
        self.sync_running = true;
        self.master_env_id = Some(master_env_id);
        self.slave_env_ids = slave_env_ids;
        self.last_error = None;
        notices
    }

    /// Stops synchronization: the returned notices (to be sent as
    /// `SyncRole` events, failures ignored) tell the leader and followers
    /// that the event bus held to stop; then the event bus and this module
    /// hold no synchronization.
    pub fn stop_sync(&mut self, bus: &mut EventBusState) -> (notices: Vec<(String, u8)>)
        ensures
            notice_views(notices@) == stop_notices(
                old(bus).spec_sync_master(),
                old(bus).spec_sync_slaves(),
            ),
            final(bus).spec_sync_master() is None,
            final(bus).spec_sync_slaves() == Seq::<Seq<char>>::empty(),
            final(bus).spec_connected() == old(bus).spec_connected(),
            final(self).idle(),
            final(self).spec_healthy(),
            final(self).spec_phase() == old(self).spec_phase(),
    {
        let (master, slaves) = bus.get_sync_state();
        let mut to_notify: Vec<String> = Vec::new();
        match master {
            Some(m) => to_notify.push(m),
            None => {},
        }
        let ghost lead = to_notify@;
        let mut k: usize = 0;
        while k < slaves.len()
            invariant
                k <= slaves@.len(),
                to_notify@ == lead + slaves@.subrange(0, k as int),
            decreases slaves@.len() - k,
        {
            to_notify.push(slaves[k].clone());
            k = k + 1;
            assert(to_notify@ =~= lead + slaves@.subrange(0, k as int));
        }
        assert(slaves@.subrange(0, slaves@.len() as int) =~= slaves@);
        let mut notices: Vec<(String, u8)> = Vec::new();
        let mut j: usize = 0;
        while j < to_notify.len()
            invariant
                j <= to_notify@.len(),
                notice_views(notices@) == views(to_notify@).subrange(0, j as int).map_values(
                    |s: Seq<char>| (s, SYNC_ROLE_NONE),
                ),
            decreases to_notify@.len() - j,
        {
            let ghost prev = notices@;
            notices.push((to_notify[j].clone(), SYNC_ROLE_NONE));
            j = j + 1;
            proof {
                let tv = views(to_notify@);
                assert(tv.subrange(0, j as int) =~= tv.subrange(0, j - 1).push(tv[j - 1]));
                assert(notice_views(notices@) =~= notice_views(prev).push((tv[j - 1], SYNC_ROLE_NONE)));
                assert(tv.subrange(0, j as int).map_values(|s: Seq<char>| (s, SYNC_ROLE_NONE))
                    =~= tv.subrange(0, j - 1).map_values(|s: Seq<char>| (s, SYNC_ROLE_NONE)).push(
                    (tv[j - 1], SYNC_ROLE_NONE),
                ));
            }
        }
        proof {
            assert(views(to_notify@).subrange(0, to_notify@.len() as int) =~= views(to_notify@));
            let lead_v: Seq<Seq<char>> = match old(bus).spec_sync_master() {
                Some(m) => seq![m],
                None => Seq::empty(),
            };
            assert(views(lead) =~= lead_v);
            assert(views(to_notify@) =~= lead_v + old(bus).spec_sync_slaves());
        }
        let none: Vec<String> = Vec::new();
        assert(views(none@) =~= Seq::<Seq<char>>::empty());
        bus.set_sync_state(None, none);
        self.reset_sync();
        self.last_error = None;
        notices
    }

    /// On context teardown: stops synchronization and waits for the next
    /// context. Without an event bus it fails and changes nothing.
    pub fn on_context_destroy(&mut self, bus: &mut Option<EventBusState>) -> (r: Result<
        Vec<(String, u8)>,
        RuntimeError,
    >)
        ensures
            *old(bus) is None ==> (r matches Err(e) && runtime_error_text(e) == Some(
                "invalid runtime state: "@ + "eventbus manager is not initialized"@,
            )) && *final(self) == *old(self),
            *old(bus) matches Some(b) ==> (r matches Ok(notices) && notice_views(notices@)
                == stop_notices(b.spec_sync_master(), b.spec_sync_slaves())) && final(self).idle()
                && final(self).spec_healthy() && final(self).spec_phase()
                == SyncModulePhase::RuntimeStarted,
            *old(bus) matches Some(b) ==> *final(bus) matches Some(fb) && fb.spec_sync_master() is None
                && fb.spec_sync_slaves() == Seq::<Seq<char>>::empty() && fb.spec_connected()
                == b.spec_connected(),
    {
        match bus {
            None => Err(no_event_bus()),
            Some(b) => {
                let notices = self.stop_sync(b);
                self.phase = SyncModulePhase::RuntimeStarted;
                Ok(notices)
            },
        }
    }

    /// On runtime shutdown: stops synchronization and is stopped. Without
    /// an event bus it fails and changes nothing.
    pub fn on_runtime_shutdown(&mut self, bus: &mut Option<EventBusState>) -> (r: Result<
        Vec<(String, u8)>,
        RuntimeError,
    >)
        ensures
            *old(bus) is None ==> (r matches Err(e) && runtime_error_text(e) == Some(
                "invalid runtime state: "@ + "eventbus manager is not initialized"@,
            )) && *final(self) == *old(self),
            *old(bus) matches Some(b) ==> (r matches Ok(notices) && notice_views(notices@)
                == stop_notices(b.spec_sync_master(), b.spec_sync_slaves())) && final(self).idle() && final(self).spec_healthy() && final(self).spec_phase()
                == SyncModulePhase::RuntimeStopped,
            *old(bus) matches Some(b) ==> *final(bus) matches Some(fb) && fb.spec_sync_master() is None
                && fb.spec_sync_slaves() == Seq::<Seq<char>>::empty() && fb.spec_connected()
                == b.spec_connected(),
    {
        match bus {
            None => Err(no_event_bus()),
            Some(b) => {
                let notices = self.stop_sync(b);
                self.phase = SyncModulePhase::RuntimeStopped;
                Ok(notices)
            },
        }
    }

    /// Runs a client command, which needs an initialized context. Listing
    /// works without an event bus (the list is then empty); starting and
    /// stopping do not. The response comes with the role notices to send.
    pub fn execute_command(&mut self, bus: &mut Option<EventBusState>, command: SyncCommandRequest) -> (r:
        Result<(SyncCommandResponse, Vec<(String, u8)>), RuntimeError>)
        ensures
            old(self).spec_phase() != SyncModulePhase::ContextReady ==> (r matches Err(e)
                && runtime_error_text(e) == Some(
                "invalid runtime state: "@ + "sync runtime requires initialized context"@,
            )) && *final(self) == *old(self),
            old(self).spec_phase() == SyncModulePhase::ContextReady ==> match command {
                SyncCommandRequest::GetRunningEnvironments => (r matches Ok(
                    (SyncCommandResponse::RunningEnvironments { environments }, notices),
                ) && notices@.len() == 0 && match *old(bus) {
                    Some(b) => spec_running(b.spec_connected(), environments@),
                    None => environments@.len() == 0,
                }) && *final(self) == *old(self),
                SyncCommandRequest::StartSync { master_env_id, slave_env_ids } => match *old(bus) {
                    None => (r matches Err(e) && runtime_error_text(e) == Some(
                        "invalid runtime state: "@ + "eventbus manager is not initialized"@,
                    )) && *final(self) == *old(self),
                    Some(b) => (r matches Ok((SyncCommandResponse::Ack, notices)) && notice_views(
                        notices@,
                    ) == start_notices(master_env_id@, views(slave_env_ids@)))
                        && final(self).spec_running() && final(self).spec_master() == Some(
                        master_env_id@,
                    ) && final(self).spec_slaves() == views(slave_env_ids@)
                        && final(self).spec_healthy() && final(self).spec_phase()
                        == old(self).spec_phase() && (*final(bus) matches Some(fb) && fb.spec_sync_master() == Some(master_env_id@)
                        && fb.spec_sync_slaves() == views(slave_env_ids@) && fb.spec_connected()
                        == b.spec_connected()),
                },
                SyncCommandRequest::StopSync => match *old(bus) {
                    None => (r matches Err(e) && runtime_error_text(e) == Some(
                        "invalid runtime state: "@ + "eventbus manager is not initialized"@,
                    )) && *final(self) == *old(self),
                    Some(b) => (r matches Ok((SyncCommandResponse::Ack, notices)) && notice_views(
                        notices@,
                    ) == stop_notices(b.spec_sync_master(), b.spec_sync_slaves())) && final(self).idle()
                        && final(self).spec_healthy() && final(self).spec_phase()
                        == old(self).spec_phase() && (*final(bus) matches Some(fb) && fb.spec_sync_master() is None
                        && fb.spec_sync_slaves() == Seq::<Seq<char>>::empty()
                        && fb.spec_connected() == b.spec_connected()),
                },
            },
    {
        if self.phase != SyncModulePhase::ContextReady {
            return Err(
                RuntimeError::InvalidState(
                    String::from_str("sync runtime requires initialized context"),
                ),
            );
        }
        match command {
            SyncCommandRequest::GetRunningEnvironments => {
                let environments = match bus {
                    Some(b) => running_environments(&b.connected_envs()),
                    None => Vec::new(),
                };
                Ok((SyncCommandResponse::RunningEnvironments { environments }, Vec::new()))
            },
            SyncCommandRequest::StartSync { master_env_id, slave_env_ids } => match bus {
                None => Err(no_event_bus()),
                Some(b) => {
                    let notices = self.start_sync(b, master_env_id, slave_env_ids);
                    Ok((SyncCommandResponse::Ack, notices))
                },
            },
            SyncCommandRequest::StopSync => match bus {
                None => Err(no_event_bus()),
                Some(b) => {
                    let notices = self.stop_sync(b);
                    Ok((SyncCommandResponse::Ack, notices))
                },
            },
        }
    }
}

fn no_event_bus() -> (e: RuntimeError)
    ensures
        runtime_error_text(e) == Some(
            "invalid runtime state: "@ + "eventbus manager is not initialized"@,
        ),
{
    RuntimeError::InvalidState(String::from_str("eventbus manager is not initialized"))
}

} // verus!

verus! {

/// The environments that a stop tells to leave synchronization, following
/// a start with leader `master` and followers `slaves`, are exactly those
/// the start told their roles, in the same order.
pub proof fn lemma_stop_reaches_started(master: Seq<char>, slaves: Seq<Seq<char>>)
    ensures
        start_notices(master, slaves).map_values(|n: (Seq<char>, u8)| n.0) == stop_notices(
            Some(master),
            slaves,
        ).map_values(|n: (Seq<char>, u8)| n.0),
        forall|i: int|
            0 <= i < stop_notices(Some(master), slaves).len() ==> #[trigger] stop_notices(
                Some(master),
                slaves,
            )[i].1 == SYNC_ROLE_NONE,
{
    assert(start_notices(master, slaves).map_values(|n: (Seq<char>, u8)| n.0) =~= stop_notices(
        Some(master),
        slaves,
    ).map_values(|n: (Seq<char>, u8)| n.0));
}

} // verus!
