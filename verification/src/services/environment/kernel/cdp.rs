use vstd::prelude::*;
use vstd::string::StringExecFns;
use crate::app::error::{runtime_error_text, RuntimeError};
use crate::services::environment::keyed_table::{after_remove, after_set, has_key, lookup, other_key, KeyedTable};
use crate::text::{decimal, push_decimal};
use super::types::CdpEndpointResponse;

verus! {

/// The host that debugging endpoints listen on.
pub open spec fn cdp_host() -> Seq<char> {
    "127.0.0.1"@
}

/// The lowest debugging port handed out.
pub const CDP_PORT_START: u16 = 29200;

/// The highest debugging port handed out.
pub const CDP_PORT_END: u16 = 29499;

/// The ports that may be handed out, in ascending order.
pub open spec fn port_range() -> Seq<u16> {
    Seq::new(300, |i: int| (29200 + i) as u16)
}

/// Whether a port is not in `used`.
pub open spec fn unused(used: Seq<u16>) -> spec_fn(u16) -> bool {
    |p: u16| !used.contains(p)
}

/// The ports of the range that `used` does not hold, in ascending order.
pub open spec fn spec_candidates(used: Seq<u16>) -> Seq<u16> {
    port_range().filter(unused(used))
}

/// The address of the version document of the endpoint on `port`.
pub open spec fn spec_version_url(port: u16) -> Seq<char> {
    "http://"@ + cdp_host() + ":"@ + decimal(port as nat) + "/json/version"@
}

/// The address of the target list of the endpoint on `port`.
pub open spec fn spec_list_url(port: u16) -> Seq<char> {
    "http://"@ + cdp_host() + ":"@ + decimal(port as nat) + "/json/list"@
}

fn endpoint_url(port: u16, path: &str) -> (s: String)
    ensures
        s@ == "http://"@ + cdp_host() + ":"@ + decimal(port as nat) + path@,
{
    let mut s = String::from_str("http://127.0.0.1:");
    proof {
        reveal_strlit("http://127.0.0.1:");
        reveal_strlit("http://");
        reveal_strlit("127.0.0.1");
        reveal_strlit(":");
        assert("http://127.0.0.1:"@ =~= "http://"@ + cdp_host() + ":"@);
    }
    push_decimal(&mut s, port as u64);
    s.append(path);
    s
}

/// The address of the version document of the endpoint on `port`.
pub fn version_url(port: u16) -> (s: String)
    ensures
        s@ == spec_version_url(port),
{
    endpoint_url(port, "/json/version")
}

/// The address of the target list of the endpoint on `port`.
pub fn list_url(port: u16) -> (s: String)
    ensures
        s@ == spec_list_url(port),
{
    endpoint_url(port, "/json/list")
}

/// Where the debugging endpoint of one environment listens.
#[derive(Debug)]
pub struct CdpEndpointInfo {
    pub env_uuid: String,
    pub host: String,
    pub port: u16,
    pub version_url: String,
    pub list_url: String,
    pub browser_ws_url: Option<String>,
}

impl CdpEndpointInfo {
    /// The endpoint of environment `env_uuid` on `port`, with the browser's
    /// websocket address if its version document gave one.
    pub fn new(env_uuid: &str, port: u16, browser_ws_url: Option<String>) -> (e: CdpEndpointInfo)
        ensures
            e.env_uuid@ == env_uuid@,
            e.host@ == cdp_host(),
            e.port == port,
            e.version_url@ == spec_version_url(port),
            e.list_url@ == spec_list_url(port),
            e.browser_ws_url == browser_ws_url,
    {
        proof {
            reveal_strlit("127.0.0.1");
        }
        CdpEndpointInfo {
            env_uuid: String::from_str(env_uuid),
            host: String::from_str("127.0.0.1"),
            port,
            version_url: version_url(port),
            list_url: list_url(port),
            browser_ws_url,
        }
    }

    /// The same endpoint, as the client is answered with it.
    pub fn into_response(self) -> (r: CdpEndpointResponse)
        ensures
            r.env_uuid == self.env_uuid,
            r.host == self.host,
            r.port == self.port,
            r.version_url == self.version_url,
            r.list_url == self.list_url,
            r.browser_ws_url == self.browser_ws_url,
    {
        CdpEndpointResponse {
            env_uuid: self.env_uuid,
            host: self.host,
            port: self.port,
            version_url: self.version_url,
            list_url: self.list_url,
            browser_ws_url: self.browser_ws_url,
        }
    }
}

/// The error when every port of the range is taken.
pub fn no_available_port() -> (e: RuntimeError)
    ensures
        runtime_error_text(e) == Some("internal error: "@ + "No available CDP port in configured range"@),
{
    RuntimeError::Internal(String::from_str("No available CDP port in configured range"))
}

/// The debugging port of each environment.
pub struct CdpEndpointManager {
    ports: KeyedTable<u16>,
}

impl CdpEndpointManager {
    /// The port of each environment, in the order they were handed out.
    pub closed spec fn view_ports(&self) -> Seq<(Seq<char>, u16)> {
        self.ports.view_entries()
    }

    /// The invariant: ids are distinct, and the held ports lie in the range
    /// and are distinct.
    pub closed spec fn wf(&self) -> bool {
        self.ports.wf() && ports_valid(self.view_ports())
    }

    /// No ports handed out.
    pub fn new() -> (m: Self)
        ensures
            m.view_ports() == Seq::<(Seq<char>, u16)>::empty(),
            m.wf(),
    {
        CdpEndpointManager { ports: KeyedTable::new() }
    }

    /// The port of environment `env_uuid`, if it has one.
    pub fn get_port(&self, env_uuid: &str) -> (r: Option<u16>)
        requires
            self.wf(),
        ensures
            r == lookup(self.view_ports(), env_uuid@),
    {
        self.ports.get(env_uuid)
    }

    /// The ports of the range that no environment holds, in ascending
    /// order: those to try, first to last, for a new environment.
    pub fn candidate_ports(&self) -> (r: Vec<u16>)
        ensures
            r@ == spec_candidates(held_ports(self.view_ports())),
    {
        let used = self.ports.values();
        let ghost u = used@;
        let mut r: Vec<u16> = Vec::new();
        let mut p: u16 = CDP_PORT_START;
        let mut i: usize = 0;
        while i < 300
            invariant
                i <= 300,
                i < 300 ==> p == 29200 + i,
                used@ == u,
                r@ == port_range().subrange(0, i as int).filter(unused(u)),
            decreases 300 - i,
        {
            let ghost prev = r@;
            let taken = contains_port(&used, p);
            if !taken {
                r.push(p);
            }
            proof {
                reveal(Seq::filter);
                let s = port_range().subrange(0, i + 1);
                assert(s.drop_last() =~= port_range().subrange(0, i as int));
                assert(s.last() == p);
            }
            i = i + 1;
            if i < 300 {
                p = p + 1;
            }
        }
        assert(port_range().subrange(0, 300) =~= port_range());
        r
    }

    /// The port of environment `env_uuid`, handing one out when it has
    /// none. `bindable[i]` tells whether the `i`-th of `candidate_ports()`
    /// could be bound on the host; the first candidate that could is handed
    /// out. When none of those given could, nothing changes and the result
    /// is the error for an exhausted range.
    pub fn allocate_port(&mut self, env_uuid: &str, bindable: &Vec<bool>) -> (r: Result<u16, RuntimeError>)
        requires
            old(self).wf(),
        ensures
            final(self).wf(),
            lookup(old(self).view_ports(), env_uuid@) matches Some(q) ==> r == Ok::<u16, RuntimeError>(q)
                && final(self).view_ports() == old(self).view_ports(),
            lookup(old(self).view_ports(), env_uuid@) is None ==> match first_bindable(
                spec_candidates(held_ports(old(self).view_ports())),
                bindable@,
            ) {
                Some(p) => r == Ok::<u16, RuntimeError>(p) && final(self).view_ports() == after_set(
                    old(self).view_ports(),
                    env_uuid@,
                    p,
                ),
                None => (r matches Err(e) && runtime_error_text(e) == Some(
                    "internal error: "@ + "No available CDP port in configured range"@,
                )) && final(self).view_ports() == old(self).view_ports(),
            },
    {
        match self.get_port(env_uuid) {
            Some(q) => Ok(q),
            None => {
                let candidates = self.candidate_ports();
                match pick_bindable(&candidates, bindable) {
                    Some(p) => {
                        let ghost s = self.view_ports();
                        proof {
                            lemma_first_bindable_in(candidates@, bindable@);
                            lemma_candidates_are_free(held_ports(s), p);
                            assert(!has_key(s, env_uuid@));
                            assert forall|i: int| 0 <= i < s.len() implies #[trigger] s[i].1 != p by {
                                assert(held_ports(s)[i] == s[i].1);
                            }
                        }
                        self.ports.set(env_uuid, p);
                        proof {
                            let t = s.push((env_uuid@, p));
                            assert(self.view_ports() == t);
                            assert forall|i: int, j: int| 0 <= i < j < t.len() implies #[trigger] t[i].1
                                != #[trigger] t[j].1 by {
                                if j < s.len() {
                                    assert(t[i] == s[i] && t[j] == s[j]);
                                } else {
                                    assert(t[i] == s[i]);
                                }
                            }
                            assert forall|i: int| 0 <= i < t.len() implies CDP_PORT_START <= #[trigger] t[i].1
                                <= CDP_PORT_END by {
                                if i < s.len() {
                                    assert(t[i] == s[i]);
                                }
                            }
                        }
                        Ok(p)
                    },
                    None => Err(no_available_port()),
                }
            },
        }
    }

    /// Takes back the port of environment `env_uuid`.
    pub fn remove(&mut self, env_uuid: &str)
        requires
            old(self).wf(),
        ensures
            final(self).wf(),
            final(self).view_ports() == after_remove(old(self).view_ports(), env_uuid@),
    {
        proof {
            lemma_ports_valid_after_remove(self.view_ports(), env_uuid@);
        }
        self.ports.remove(env_uuid);
    }

    /// Takes back every port.
    pub fn clear_all(&mut self)
        ensures
            final(self).wf(),
            final(self).view_ports() == Seq::<(Seq<char>, u16)>::empty(),
    {
        self.ports.clear();
    }
}

impl Default for CdpEndpointManager {
    /// The same as `new`: no ports handed out.
    fn default() -> (m: Self)
        ensures
            m.view_ports() == Seq::<(Seq<char>, u16)>::empty(),
            m.wf(),
    {
        CdpEndpointManager::new()
    }
}

/// The ports held, in the order they were handed out.
pub open spec fn held_ports(s: Seq<(Seq<char>, u16)>) -> Seq<u16> {
    s.map_values(|e: (Seq<char>, u16)| e.1)
}

/// Whether every held port lies in the range and no two environments hold
/// the same port.
pub open spec fn ports_valid(s: Seq<(Seq<char>, u16)>) -> bool {
    &&& forall|i: int| 0 <= i < s.len() ==> CDP_PORT_START <= #[trigger] s[i].1 <= CDP_PORT_END
    &&& forall|i: int, j: int| 0 <= i < j < s.len() ==> #[trigger] s[i].1 != #[trigger] s[j].1
}

/// The first of the candidates `c` whose bind result in `b` is true; the
/// `i`-th result belongs to the `i`-th candidate.
pub open spec fn first_bindable(c: Seq<u16>, b: Seq<bool>) -> Option<u16>
    decreases c.len(),
{
    if c.len() == 0 || b.len() == 0 {
        None
    } else if b[0] {
        Some(c[0])
    } else {
        first_bindable(c.drop_first(), b.drop_first())
    }
}

proof fn lemma_first_bindable_in(c: Seq<u16>, b: Seq<bool>)
    ensures
        first_bindable(c, b) matches Some(p) ==> c.contains(p),
    decreases c.len(),
{
    if c.len() > 0 && b.len() > 0 {
        if b[0] {
            assert(c[0] == c[0]);
        } else {
            lemma_first_bindable_in(c.drop_first(), b.drop_first());
            if let Some(p) = first_bindable(c, b) {
                let j = choose|j: int| 0 <= j < c.drop_first().len() && c.drop_first()[j] == p;
                assert(c[j + 1] == p);
            }
        }
    }
}

fn pick_bindable(c: &Vec<u16>, b: &Vec<bool>) -> (r: Option<u16>)
    ensures
        r == first_bindable(c@, b@),
{
    let mut i: usize = 0;
    assert(c@.skip(0) =~= c@ && b@.skip(0) =~= b@);
    while i < c.len() && i < b.len()
        invariant
            i <= c@.len(),
            i <= b@.len(),
            first_bindable(c@, b@) == first_bindable(c@.skip(i as int), b@.skip(i as int)),
        decreases c@.len() - i,
    {
        proof {
            assert(c@.skip(i as int).drop_first() =~= c@.skip(i + 1));
            assert(b@.skip(i as int).drop_first() =~= b@.skip(i + 1));
        }
        if b[i] {
            return Some(c[i]);
        }
        i = i + 1;
    }
    None
}

proof fn lemma_ports_valid_after_remove(s: Seq<(Seq<char>, u16)>, k: Seq<char>)
    requires
        ports_valid(s),
    ensures
        ports_valid(after_remove(s, k)),
    decreases s.len(),
{
    reveal(Seq::filter);
    let f = after_remove(s, k);
    if s.len() == 0 {
        assert(f =~= s);
    } else {
        let p = s.drop_last();
        let last = s.last();
        assert(p.push(last) =~= s);
        assert(ports_valid(p)) by {
            assert forall|i: int, j: int| 0 <= i < j < p.len() implies #[trigger] p[i].1
                != #[trigger] p[j].1 by {
                assert(p[i] == s[i] && p[j] == s[j]);
            }
            assert forall|i: int| 0 <= i < p.len() implies CDP_PORT_START <= #[trigger] p[i].1
                <= CDP_PORT_END by {
                assert(p[i] == s[i]);
            }
        }
        lemma_ports_valid_after_remove(p, k);
        let fp = after_remove(p, k);
        if last.0 != k {
            assert(f =~= fp.push(last));
            assert forall|i: int| 0 <= i < fp.len() implies #[trigger] fp[i].1 != last.1 by {
                assert(fp.contains(fp[i]));
                p.lemma_filter_contains_rev(other_key(k), fp[i]);
                let m = choose|m: int| 0 <= m < p.len() && p[m] == fp[i];
                assert(s[m] == p[m]);
                assert(s[s.len() - 1] == last);
            }
            assert forall|i: int, j: int| 0 <= i < j < f.len() implies #[trigger] f[i].1
                != #[trigger] f[j].1 by {
                assert(f[i] == fp[i]);
                if j < fp.len() {
                    assert(f[j] == fp[j]);
                }
            }
            assert forall|i: int| 0 <= i < f.len() implies CDP_PORT_START <= #[trigger] f[i].1
                <= CDP_PORT_END by {
                if i < fp.len() {
                    assert(f[i] == fp[i]);
                } else {
                    assert(s[s.len() - 1] == last);
                }
            }
        } else {
            assert(f =~= fp);
        }
    }
}

fn contains_port(v: &Vec<u16>, p: u16) -> (b: bool)
    ensures
        b == v@.contains(p),
{
    let mut k: usize = 0;
    while k < v.len()
        invariant
            k <= v@.len(),
            forall|j: int| 0 <= j < k ==> v@[j] != p,
        decreases v@.len() - k,
    {
        if v[k] == p {
            return true;
        }
        k = k + 1;
    }
    false
}

/// Every port offered for a new environment lies in the range and is held
/// by no environment.
pub proof fn lemma_candidates_are_free(used: Seq<u16>, p: u16)
    requires
        spec_candidates(used).contains(p),
    ensures
        CDP_PORT_START <= p <= CDP_PORT_END,
        !used.contains(p),
{
    port_range().lemma_filter_contains_rev(unused(used), p);
    let i = choose|i: int| 0 <= i < port_range().len() && port_range()[i] == p;
    let j = choose|j: int| 0 <= j < spec_candidates(used).len() && spec_candidates(used)[j] == p;
    port_range().lemma_filter_pred(unused(used), j);
}

/// Every port handed out lies in the range, and no two environments hold
/// the same port, whatever was allocated and taken back before.
pub proof fn lemma_held_ports_valid(m: CdpEndpointManager)
    requires
        m.wf(),
    ensures
        ports_valid(m.view_ports()),
{
}

/// Whether a list of ports goes strictly upward.
pub open spec fn increasing(s: Seq<u16>) -> bool {
    forall|i: int, j: int| 0 <= i < j < s.len() ==> #[trigger] s[i] < #[trigger] s[j]
}

proof fn lemma_filter_increasing(s: Seq<u16>, keep: spec_fn(u16) -> bool)
    requires
        increasing(s),
    ensures
        increasing(s.filter(keep)),
    decreases s.len(),
{
    reveal(Seq::filter);
    if s.len() > 0 {
        let p = s.drop_last();
        assert(increasing(p)) by {
            assert forall|i: int, j: int| 0 <= i < j < p.len() implies #[trigger] p[i] < #[trigger] p[j] by {
                assert(p[i] == s[i] && p[j] == s[j]);
            }
        }
        lemma_filter_increasing(p, keep);
        let fp = p.filter(keep);
        let f = s.filter(keep);
        if keep(s.last()) {
            assert(f =~= fp.push(s.last()));
            assert forall|i: int, j: int| 0 <= i < j < f.len() implies #[trigger] f[i] < #[trigger] f[j] by {
                assert(f[i] == fp[i]);
                if j < fp.len() {
                    assert(f[j] == fp[j]);
                } else {
                    assert(fp.contains(fp[i]));
                    p.lemma_filter_contains_rev(keep, fp[i]);
                    let m = choose|m: int| 0 <= m < p.len() && p[m] == fp[i];
                    assert(s[m] == p[m]);
                }
            }
        } else {
            assert(f =~= fp);
        }
    }
}

proof fn lemma_first_bindable_first(c: Seq<u16>, b: Seq<bool>)
    ensures
        first_bindable(c, b) matches Some(p) ==> exists|i: int|
            0 <= i < c.len() && i < b.len() && b[i] && c[i] == p && (forall|j: int|
                0 <= j < i ==> !#[trigger] b[j]),
        first_bindable(c, b) is None ==> forall|j: int|
            0 <= j < c.len() && j < b.len() ==> !#[trigger] b[j],
    decreases c.len(),
{
    if c.len() > 0 && b.len() > 0 {
        if b[0] {
            assert(0 < c.len() && 0 < b.len() && b[0] && c[0] == c[0]);
        } else {
            let c1 = c.drop_first();
            let b1 = b.drop_first();
            lemma_first_bindable_first(c1, b1);
            if let Some(p) = first_bindable(c, b) {
                let i = choose|i: int|
                    0 <= i < c1.len() && i < b1.len() && b1[i] && c1[i] == p && (forall|j: int|
                        0 <= j < i ==> !#[trigger] b1[j]);
                assert forall|j: int| 0 <= j < i + 1 implies !#[trigger] b[j] by {
                    if j > 0 {
                        assert(b[j] == b1[j - 1]);
                    }
                }
                assert(b[i + 1] && c[i + 1] == p);
            } else {
                assert forall|j: int| 0 <= j < c.len() && j < b.len() implies !#[trigger] b[j] by {
                    if j > 0 {
                        assert(b[j] == b1[j - 1]);
                    }
                }
            }
        }
    }
}

/// The port a new environment gets is the lowest port of the range that
/// no environment holds and whose bind result is true; when there is none
/// among the results given, there is no such port among them.
pub proof fn lemma_allocated_port_is_lowest(held: Seq<u16>, bindable: Seq<bool>)
    ensures
        increasing(spec_candidates(held)),
        first_bindable(spec_candidates(held), bindable) matches Some(p) ==> {
            &&& CDP_PORT_START <= p <= CDP_PORT_END
            &&& !held.contains(p)
            &&& exists|i: int|
                0 <= i < bindable.len() && bindable[i] && spec_candidates(held)[i] == p
            &&& forall|j: int|
                0 <= j < spec_candidates(held).len() && j < bindable.len() && #[trigger] spec_candidates(held)[j] < p
                    ==> !bindable[j]
        },
        first_bindable(spec_candidates(held), bindable) is None ==> forall|j: int|
            0 <= j < spec_candidates(held).len() && j < bindable.len() ==> !#[trigger] bindable[j],
{
    let c = spec_candidates(held);
    assert(increasing(port_range()));
    lemma_filter_increasing(port_range(), unused(held));
    lemma_first_bindable_first(c, bindable);
    lemma_first_bindable_in(c, bindable);
    if let Some(p) = first_bindable(c, bindable) {
        lemma_candidates_are_free(held, p);
        let i = choose|i: int|
            0 <= i < c.len() && i < bindable.len() && bindable[i] && c[i] == p && (forall|j: int|
                0 <= j < i ==> !#[trigger] bindable[j]);
        assert forall|j: int| 0 <= j < c.len() && j < bindable.len() && #[trigger] c[j] < p implies !bindable[j] by {
            if j >= i {
                if j > i {
                    assert(c[i] < c[j]);
                }
            }
        }
    }
}

} // verus!
