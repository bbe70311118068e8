use vstd::prelude::*;
use vstd::string::StringExecFns;
use super::error::EventBusError;
use super::topics::Topic;
use crate::app::state::{clone_opt_string, opt_view};

verus! {

/// Who the user of the client is, as browsers are told.
#[derive(Debug)]
pub struct UserInfo {
    pub user_id: String,
    pub username: String,
    pub email: Option<String>,
}

/// The sign-in state that browsers are told about.
#[derive(Debug)]
pub struct AuthInfo {
    pub is_authenticated: bool,
    pub access_token: Option<String>,
    pub user_info: Option<UserInfo>,
}

/// A site account to sign a browser into.
#[derive(Debug)]
pub struct AccountConfig {
    pub url: String,
    pub username: String,
    pub password: String,
}

/// Cookies to load into a browser for one site.
#[derive(Debug)]
pub struct CookieGroup {
    pub site: String,
    pub cookie_text: String,
}

impl UserInfo {
    /// A copy of this user.
    pub fn duplicate(&self) -> (u: UserInfo)
        ensures
            u == *self,
    {
        UserInfo {
            user_id: self.user_id.clone(),
            username: self.username.clone(),
            email: clone_opt_string(&self.email),
        }
    }
}

impl AuthInfo {
    /// A copy of this sign-in state.
    pub fn duplicate(&self) -> (a: AuthInfo)
        ensures
            a == *self,
    {
        AuthInfo {
            is_authenticated: self.is_authenticated,
            access_token: clone_opt_string(&self.access_token),
            user_info: match &self.user_info {
                Some(u) => Some(u.duplicate()),
                None => None,
            },
        }
    }
}

/// A change of a browser's connection, as reported to the client.
#[derive(Debug)]
pub struct EnvConnectionPayload {
    pub env_id: String,
    pub status: String,
}

impl EnvConnectionPayload {
    /// The report that environment `env_id` has connected.
    pub fn connected(env_id: &str) -> (p: EnvConnectionPayload)
        ensures
            p.env_id@ == env_id@,
            p.status@ == "connected"@,
    {
        EnvConnectionPayload { env_id: String::from_str(env_id), status: String::from_str("connected") }
    }

    /// The report that environment `env_id` has disconnected.
    pub fn disconnected(env_id: &str) -> (p: EnvConnectionPayload)
        ensures
            p.env_id@ == env_id@,
            p.status@ == "disconnected"@,
    {
        EnvConnectionPayload {
            env_id: String::from_str(env_id),
            status: String::from_str("disconnected"),
        }
    }
}

/// The views of a list of strings.
pub open spec fn views(v: Seq<String>) -> Seq<Seq<char>> {
    v.map_values(|s: String| s@)
}

/// The list `s` without the entries equal to `x`.
pub open spec fn without(s: Seq<Seq<char>>, x: Seq<char>) -> Seq<Seq<char>> {
    s.filter(|e: Seq<char>| e != x)
}

/// Whether two strings have the same text.
pub fn same_text(a: &str, b: &str) -> (r: bool)
    ensures
        r == (a@ == b@),
{
    String::from_str(a) == String::from_str(b)
}

/// A copy of a list of strings.
pub fn clone_strings(v: &Vec<String>) -> (r: Vec<String>)
    ensures
        r@ == v@,
{
    let mut r: Vec<String> = Vec::new();
    let mut k: usize = 0;
    while k < v.len()
        invariant
            k <= v@.len(),
            r@ == v@.subrange(0, k as int),
        decreases v@.len() - k,
    {
        r.push(v[k].clone());
        k = k + 1;
        assert(r@ =~= v@.subrange(0, k as int));
    }
    assert(v@.subrange(0, v@.len() as int) =~= v@);
    r
}

/// The position of `id` in a list of strings, if it is there.
pub fn position_of(v: &Vec<String>, id: &str) -> (r: Option<usize>)
    ensures
        r matches Some(i) ==> i < v@.len() && v@[i as int]@ == id@,
        r is Some <==> views(v@).contains(id@),
{
    let mut k: usize = 0;
    while k < v.len()
        invariant
            k <= v@.len(),
            forall|j: int| 0 <= j < k ==> v@[j]@ != id@,
        decreases v@.len() - k,
    {
        if same_text(v[k].as_str(), id) {
            proof {
                assert(views(v@)[k as int] == id@);
            }
            return Some(k);
        }
        k = k + 1;
    }
    proof {
        if views(v@).contains(id@) {
            let j = choose|j: int| 0 <= j < views(v@).len() && views(v@)[j] == id@;
            assert(v@[j]@ == id@);
        }
    }
    None
}

/// What the event bus keeps track of besides the pipes themselves: which
/// environments are connected, and which environment leads input
/// synchronization for which followers.
pub struct EventBusState {
    connected: Vec<String>,
    sync_master: Option<String>,
    sync_slaves: Vec<String>,
}

/// What happens to a frame that a connected browser sends.
#[derive(Debug, Clone, Copy, PartialEq, Eq, Structural)]
pub enum BrowserMessageRoute {
    /// A sign-in state request: answered with the current sign-in state.
    AnswerAuth,
    /// An input event: forwarded to the followers when the sender leads.
    ForwardSyncInput,
    /// A paste: forwarded to the followers when the sender leads.
    ForwardPaste,
    /// Input diagnostics: logged.
    LogSyncDebug,
    /// Anything else: ignored.
    Ignore,
}

/// What happens to a frame of the given topic that a browser sends.
pub open spec fn spec_route_browser_message(topic: Topic) -> BrowserMessageRoute {
    match topic {
        Topic::AuthRequest => BrowserMessageRoute::AnswerAuth,
        Topic::SyncInputEvent => BrowserMessageRoute::ForwardSyncInput,
        Topic::SyncPaste => BrowserMessageRoute::ForwardPaste,
        Topic::SyncInputDebug => BrowserMessageRoute::LogSyncDebug,
        _ => BrowserMessageRoute::Ignore,
    }
}

/// Decides what happens to a frame that a browser sends.
pub fn route_browser_message(topic: Topic) -> (r: BrowserMessageRoute)
    ensures
        r == spec_route_browser_message(topic),
{
    match topic {
        Topic::AuthRequest => BrowserMessageRoute::AnswerAuth,
        Topic::SyncInputEvent => BrowserMessageRoute::ForwardSyncInput,
        Topic::SyncPaste => BrowserMessageRoute::ForwardPaste,
        Topic::SyncInputDebug => BrowserMessageRoute::LogSyncDebug,
        _ => BrowserMessageRoute::Ignore,
    }
}

/// The error for sending to an environment that is not connected.
pub fn not_connected(env_id: &str) -> (e: EventBusError)
    ensures
        e matches EventBusError::NotConnected(t) && t@ == "env "@ + env_id@ + " not connected"@,
{
    let mut t = String::from_str("env ");
    t.append(env_id);
    t.append(" not connected");
    EventBusError::NotConnected(t)
}

/// The environments that input from `sender` goes to: the followers, when
/// `sender` leads and has followers; none otherwise.
pub open spec fn spec_forward_targets(
    master: Option<Seq<char>>,
    slaves: Seq<Seq<char>>,
    sender: Seq<char>,
) -> Option<Seq<Seq<char>>> {
    if master == Some(sender) && slaves.len() > 0 {
        Some(slaves)
    } else {
        None
    }
}

impl EventBusState {
    /// The connected environments, in the order they connected.
    pub closed spec fn spec_connected(&self) -> Seq<Seq<char>> {
        views(self.connected@)
    }

    /// The environment that leads input synchronization, if any.
    pub closed spec fn spec_sync_master(&self) -> Option<Seq<char>> {
        opt_view(self.sync_master)
    }

    /// The environments that follow it.
    pub closed spec fn spec_sync_slaves(&self) -> Seq<Seq<char>> {
        views(self.sync_slaves@)
    }

    /// The invariant: no environment is listed as connected twice.
    pub open spec fn wf(&self) -> bool {
        self.spec_connected().no_duplicates()
    }

    /// Nothing connected and no synchronization.
    pub fn new() -> (s: EventBusState)
        ensures
            s.spec_connected() == Seq::<Seq<char>>::empty(),
            s.spec_sync_master() is None,
            s.spec_sync_slaves() == Seq::<Seq<char>>::empty(),
            s.wf(),
    {
        let s = EventBusState { connected: Vec::new(), sync_master: None, sync_slaves: Vec::new() };
        assert(s.spec_connected() =~= Seq::<Seq<char>>::empty());
        assert(s.spec_sync_slaves() =~= Seq::<Seq<char>>::empty());
        s
    }

    /// The current leader and followers.
    pub fn get_sync_state(&self) -> (r: (Option<String>, Vec<String>))
        ensures
            opt_view(r.0) == self.spec_sync_master(),
            views(r.1@) == self.spec_sync_slaves(),
    {
        (clone_opt_string(&self.sync_master), clone_strings(&self.sync_slaves))
    }

    /// Sets the leader and followers; the connections are unchanged.
    pub fn set_sync_state(&mut self, master: Option<String>, slaves: Vec<String>)
        ensures
            final(self).spec_sync_master() == opt_view(master),
            final(self).spec_sync_slaves() == views(slaves@),
            final(self).spec_connected() == old(self).spec_connected(),
    {
        self.sync_master = master;
        self.sync_slaves = slaves;
    }

    /// Where input from `sender_env_id` is forwarded to.
    pub fn forward_targets(&self, sender_env_id: &str) -> (r: Option<Vec<String>>)
        ensures
            match (r, spec_forward_targets(
                self.spec_sync_master(),
                self.spec_sync_slaves(),
                sender_env_id@,
            )) {
                (Some(v), Some(t)) => views(v@) == t,
                (None, None) => true,
                _ => false,
            },
    {
        let leads = match &self.sync_master {
            Some(master_id) => same_text(master_id.as_str(), sender_env_id),
            None => false,
        };
        if leads && self.sync_slaves.len() > 0 {
            Some(clone_strings(&self.sync_slaves))
        } else {
            None
        }
    }

    /// Whether environment `env_id` is connected.
    pub fn is_connected(&self, env_id: &str) -> (b: bool)
        ensures
            b == self.spec_connected().contains(env_id@),
    {
        position_of(&self.connected, env_id).is_some()
    }

    /// The connected environments.
    pub fn connected_envs(&self) -> (r: Vec<String>)
        ensures
            views(r@) == self.spec_connected(),
    {
        clone_strings(&self.connected)
    }

    /// How many environments are connected.
    pub fn connected_env_count(&self) -> (n: usize)
        ensures
            n == self.spec_connected().len(),
    {
        self.connected.len()
    }

    /// Records that environment `env_id` is connected. A new environment
    /// goes last; one already connected keeps its place.
    pub fn register(&mut self, env_id: &str)
        requires
            old(self).wf(),
        ensures
            final(self).wf(),
            old(self).spec_connected().contains(env_id@) ==> final(self).spec_connected()
                == old(self).spec_connected(),
            !old(self).spec_connected().contains(env_id@) ==> final(self).spec_connected()
                == old(self).spec_connected().push(env_id@),
            final(self).spec_sync_master() == old(self).spec_sync_master(),
            final(self).spec_sync_slaves() == old(self).spec_sync_slaves(),
    {
        if position_of(&self.connected, env_id).is_none() {
            let ghost before = self.connected@;
            self.connected.push(String::from_str(env_id));
            assert(views(self.connected@) =~= views(before).push(env_id@));
        }
    }

    /// Forgets that environment `env_id` is connected; says whether it was.
    /// The others keep their order.
    pub fn unregister(&mut self, env_id: &str) -> (was: bool)
        requires
            old(self).wf(),
        ensures
            final(self).wf(),
            was == old(self).spec_connected().contains(env_id@),
            !final(self).spec_connected().contains(env_id@),
            final(self).spec_connected() == without(old(self).spec_connected(), env_id@),
            final(self).spec_sync_master() == old(self).spec_sync_master(),
            final(self).spec_sync_slaves() == old(self).spec_sync_slaves(),
    {
        match position_of(&self.connected, env_id) {
            None => {
                proof {
                    lemma_filter_absent(views(self.connected@), env_id@);
                }
                false
            },
            Some(i) => {
                let ghost before = views(self.connected@);
                self.connected.remove(i);
                proof {
                    assert(views(self.connected@) =~= before.remove(i as int));
                    lemma_filter_remove_unique(before, env_id@, i as int);
                    assert(before.contains(env_id@)) by {
                        assert(before[i as int] == env_id@);
                    }
                }
                true
            },
        }
    }

    /// Forgets every connection, returning the environments that were
    /// connected, in order.
    pub fn drain(&mut self) -> (r: Vec<String>)
        requires
            old(self).wf(),
        ensures
            views(r@) == old(self).spec_connected(),
            final(self).spec_connected() == Seq::<Seq<char>>::empty(),
            final(self).wf(),
            final(self).spec_sync_master() == old(self).spec_sync_master(),
            final(self).spec_sync_slaves() == old(self).spec_sync_slaves(),
    {
        let mut r: Vec<String> = Vec::new();
        std::mem::swap(&mut r, &mut self.connected);
        assert(views(self.connected@) =~= Seq::<Seq<char>>::empty());
        r
    }
}

proof fn lemma_filter_absent(s: Seq<Seq<char>>, x: Seq<char>)
    requires
        !s.contains(x),
    ensures
        without(s, x) == s,
    decreases s.len(),
{
    reveal(Seq::filter);
    if s.len() > 0 {
        let p = s.drop_last();
        assert(!p.contains(x)) by {
            if p.contains(x) {
                let j = choose|j: int| 0 <= j < p.len() && p[j] == x;
                assert(s[j] == x);
            }
        }
        lemma_filter_absent(p, x);
        assert(s.last() != x) by {
            assert(s[s.len() - 1] == s.last());
        }
        assert(p.push(s.last()) =~= s);
    }
}

proof fn lemma_filter_remove_unique(s: Seq<Seq<char>>, x: Seq<char>, i: int)
    requires
        s.no_duplicates(),
        0 <= i < s.len(),
        s[i] == x,
    ensures
        without(s, x) == s.remove(i),
        s.remove(i).no_duplicates(),
        !s.remove(i).contains(x),
    decreases s.len(),
{
    reveal(Seq::filter);
    let p = s.drop_last();
    if i == s.len() - 1 {
        assert(!p.contains(x)) by {
            if p.contains(x) {
                let j = choose|j: int| 0 <= j < p.len() && p[j] == x;
                assert(s[j] == s[i]);
            }
        }
        lemma_filter_absent(p, x);
        assert(s.remove(i) =~= p);
    } else {
        assert(p.no_duplicates());
        lemma_filter_remove_unique(p, x, i);
        assert(s.last() != x) by {
            assert(s[s.len() - 1] == s.last());
        }
        assert(s.remove(i) =~= p.remove(i).push(s.last()));
        assert(p.push(s.last()) =~= s);
    }
    assert(s.remove(i).no_duplicates());
    assert(!s.remove(i).contains(x)) by {
        if s.remove(i).contains(x) {
            let j = choose|j: int| 0 <= j < s.remove(i).len() && s.remove(i)[j] == x;
            if j < i {
                assert(s[j] == x);
            } else {
                assert(s[j + 1] == x);
            }
        }
    }
}

} // verus!

verus! {

/// Connecting an environment and then dropping its connection leaves the
/// list of connected environments as it was.
pub proof fn lemma_register_unregister_roundtrip(s: Seq<Seq<char>>, id: Seq<char>)
    requires
        s.no_duplicates(),
        !s.contains(id),
    ensures
        without(s.push(id), id) == s,
{
    let t = s.push(id);
    assert(t.no_duplicates()) by {
        assert forall|i: int, j: int| 0 <= i < t.len() && 0 <= j < t.len() && i != j implies t[i]
            != t[j] by {
            if i == s.len() as int {
                assert(t[j] == s[j]);
            } else if j == s.len() as int {
                assert(t[i] == s[i]);
            }
        }
    }
    lemma_filter_remove_unique(t, id, s.len() as int);
    assert(t.remove(s.len() as int) =~= s);
}


/// Of the frames a browser sends, only a sign-in request is answered with
/// the sign-in state, only input events and pastes are forwarded (each as
/// what it is), only input diagnostics are logged, and every other topic is
/// ignored.
pub proof fn lemma_browser_frames_routed_by_kind(t: Topic)
    ensures
        spec_route_browser_message(t) == BrowserMessageRoute::AnswerAuth <==> t == Topic::AuthRequest,
        spec_route_browser_message(t) == BrowserMessageRoute::ForwardSyncInput <==> t
            == Topic::SyncInputEvent,
        spec_route_browser_message(t) == BrowserMessageRoute::ForwardPaste <==> t == Topic::SyncPaste,
        spec_route_browser_message(t) == BrowserMessageRoute::LogSyncDebug <==> t
            == Topic::SyncInputDebug,
        spec_route_browser_message(t) == BrowserMessageRoute::Ignore <==> !(t == Topic::AuthRequest
            || t == Topic::SyncInputEvent || t == Topic::SyncPaste || t == Topic::SyncInputDebug),
{
}

} // verus!
