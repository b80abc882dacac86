use vstd::prelude::*;
use crate::git::GitSnapshot;
use crate::source::DataSnapshot;
use crate::system::{cpu_mean, mean_of, SystemSnapshot};

verus! {

/// Capacity of the rolling CPU history.
pub const CPU_HISTORY_LEN: usize = 60;

/// What one bounded append does to the rolling history: the new value
/// goes on the end, and when that would exceed `cap` the single oldest
/// entry is evicted first, so arrival order of the rest is kept.
pub open spec fn push_bounded(h: Seq<u64>, v: u64, cap: nat) -> Seq<u64> {
    let grown = h.push(v);
    if grown.len() > cap {
        grown.skip(1)
    } else {
        grown
    }
}

/// The state behind the resource tab: the last absorbed resource
/// snapshot, plus the rolling history of derived CPU means for the
/// trend display.
pub struct SystemPanel {
    pub snapshot: SystemSnapshot,
    pub cpu_history: Vec<u64>,
}

impl SystemPanel {
    /// The history never holds more entries than its capacity.
    pub open spec fn wf(&self) -> bool {
        self.cpu_history@.len() <= CPU_HISTORY_LEN
    }

    /// A fresh panel: default (all-zero) snapshot, empty history.
    pub fn new() -> (p: SystemPanel)
        ensures
            p.wf(),
            p.cpu_history@.len() == 0,
            p.snapshot.cpu_usages@.len() == 0,
            p.snapshot.total_memory == 0,
            p.snapshot.used_memory == 0,
            p.snapshot.total_disk == 0,
            p.snapshot.used_disk == 0,
    {
        SystemPanel { snapshot: SystemSnapshot::default(), cpu_history: Vec::new() }
    }

    /// Absorb one snapshot. A resource snapshot replaces the held one
    /// and appends its derived CPU mean to the rolling history; a
    /// snapshot of the other category leaves this panel exactly as it
    /// was.
    pub fn on_data(&mut self, data: &DataSnapshot)
        requires
            old(self).wf(),
        ensures
            final(self).wf(),
            (*data) matches DataSnapshot::System(s) ==> {
                &&& final(self).snapshot.cpu_usages@ == s.cpu_usages@
                &&& final(self).snapshot.total_memory == s.total_memory
                &&& final(self).snapshot.used_memory == s.used_memory
                &&& final(self).snapshot.total_disk == s.total_disk
                &&& final(self).snapshot.used_disk == s.used_disk
                &&& final(self).cpu_history@ == push_bounded(
                    old(self).cpu_history@,
                    mean_of(s.cpu_usages@) as u64,
                    CPU_HISTORY_LEN as nat,
                )
            },
            !((*data) matches DataSnapshot::System(_)) ==> *final(self) == *old(self),
    {
        match data {
            DataSnapshot::System(s) => {
                self.snapshot = s.clone();
                let m: u64 = cpu_mean(&self.snapshot.cpu_usages);
                self.cpu_history.push(m);
                if self.cpu_history.len() > CPU_HISTORY_LEN {
                    self.cpu_history.remove(0);
                    proof {
                        assert(self.cpu_history@ =~= push_bounded(
                            old(self).cpu_history@,
                            mean_of(s.cpu_usages@) as u64,
                            CPU_HISTORY_LEN as nat,
                        ));
                    }
                }
            },
            DataSnapshot::Git(_) => {},
        }
    }
}

/// The state behind the repository tab: the last absorbed
/// repository-set snapshot.
pub struct GitPanel {
    pub snapshot: GitSnapshot,
}

impl GitPanel {
    /// A fresh panel: no repository rows yet.
    pub fn new() -> (p: GitPanel)
        ensures
            p.snapshot.repos@.len() == 0,
    {
        GitPanel { snapshot: GitSnapshot::default() }
    }

    /// Absorb one snapshot: a repository-set snapshot replaces the held
    /// one; a snapshot of the other category leaves this panel exactly
    /// as it was.
    pub fn on_data(&mut self, data: &DataSnapshot)
        ensures
            (*data) matches DataSnapshot::Git(g) ==> final(self).snapshot.repos@ == g.repos@,
            !((*data) matches DataSnapshot::Git(_)) ==> *final(self) == *old(self),
    {
        match data {
            DataSnapshot::Git(g) => {
                self.snapshot = g.clone();
            },
            DataSnapshot::System(_) => {},
        }
    }
}

} // verus!
