use vstd::prelude::*;
use super::keyed_table::{after_remove, after_set, lookup, KeyedTable, entry_views};
use super::status::EnvironmentStatus;

verus! {

/// The status of each environment the runtime knows of.
pub struct EnvironmentStatusManager {
    statuses: KeyedTable<EnvironmentStatus>,
}

impl EnvironmentStatusManager {
    /// The statuses, by environment, in the order environments were first
    /// given one.
    pub closed spec fn view_statuses(&self) -> Seq<(Seq<char>, EnvironmentStatus)> {
        self.statuses.view_entries()
    }

    pub closed spec fn wf(&self) -> bool {
        self.statuses.wf()
    }

    /// No environment has a status.
    pub fn new() -> (m: Self)
        ensures
            m.view_statuses() == Seq::<(Seq<char>, EnvironmentStatus)>::empty(),
            m.wf(),
    {
        EnvironmentStatusManager { statuses: KeyedTable::new() }
    }

    /// Sets the status of environment `env_uuid`.
    pub fn set_status(&mut self, env_uuid: &str, status: EnvironmentStatus)
        requires
            old(self).wf(),
        ensures
            final(self).wf(),
            final(self).view_statuses() == after_set(old(self).view_statuses(), env_uuid@, status),
    {
        self.statuses.set(env_uuid, status);
    }

    /// The status of environment `env_uuid`, if it has one.
    pub fn get_status(&self, env_uuid: &str) -> (r: Option<EnvironmentStatus>)
        requires
            self.wf(),
        ensures
            r == lookup(self.view_statuses(), env_uuid@),
    {
        self.statuses.get(env_uuid)
    }

    /// Every environment's status.
    pub fn get_all_statuses(&self) -> (r: Vec<(String, EnvironmentStatus)>)
        ensures
            entry_views(r@) == self.view_statuses(),
    {
        self.statuses.entries()
    }

    /// Forgets the status of environment `env_uuid`.
    pub fn remove_status(&mut self, env_uuid: &str)
        requires
            old(self).wf(),
        ensures
            final(self).wf(),
            final(self).view_statuses() == after_remove(old(self).view_statuses(), env_uuid@),
    {
        self.statuses.remove(env_uuid);
    }

    /// Forgets every status.
    pub fn clear(&mut self)
        ensures
            final(self).wf(),
            final(self).view_statuses() == Seq::<(Seq<char>, EnvironmentStatus)>::empty(),
    {
        self.statuses.clear();
    }
}

impl Default for EnvironmentStatusManager {
    /// The same as `new`: no environment has a status.
    fn default() -> (m: Self)
        ensures
            m.view_statuses() == Seq::<(Seq<char>, EnvironmentStatus)>::empty(),
            m.wf(),
    {
        EnvironmentStatusManager::new()
    }
}

} // verus!
