use vstd::prelude::*;
use crate::config::Config;
use crate::git::GitSnapshot;
use crate::system::SystemSnapshot;

verus! {

/// An immutable observation from exactly one data category, as the
/// sources emit them into the shared queue and the controller consumes
/// them.
#[derive(Debug)]
pub enum DataSnapshot {
    System(SystemSnapshot),
    Git(GitSnapshot),
}

/// Fixed polling period of the resource source, in seconds.
pub const SYSTEM_INTERVAL_SECS: u64 = 1;

/// Whether the repository-set source is started at all: only when at
/// least one repository path is configured. With none configured, that
/// source never runs and the repository panel stays at its default
/// state for the whole run.
pub fn git_source_enabled(config: &Config) -> (r: bool)
    ensures
        r == (config.git.repos@.len() > 0),
{
    config.git.repos.len() > 0
}

} // verus!
