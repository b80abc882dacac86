use vstd::prelude::*;

verus! {

/// Top-level configuration: redraw cadence and the repository-monitoring
/// settings. A missing or unreadable configuration file falls back to
/// `Config::default()`.
pub struct Config {
    /// Redraw timer period, in milliseconds.
    pub tick_rate_ms: u64,
    pub git: GitConfig,
}

/// Settings for the repository-set source.
pub struct GitConfig {
    /// Polling period of the repository-set source, in seconds.
    pub interval_secs: u64,
    /// Filesystem paths of the working trees to monitor; an empty list means
    /// the repository-set source is never started.
    pub repos: Vec<String>,
}

/// Default redraw timer period in milliseconds.
pub fn default_tick_rate() -> (r: u64)
    ensures
        r == 250,
{
    250
}

/// Default repository polling period in seconds.
pub fn default_git_interval() -> (r: u64)
    ensures
        r == 5,
{
    5
}

impl Default for GitConfig {
    fn default() -> (c: GitConfig)
        ensures
            c.interval_secs == 5,
            c.repos@.len() == 0,
    {
        GitConfig { interval_secs: default_git_interval(), repos: Vec::new() }
    }
}

impl Default for Config {
    fn default() -> (c: Config)
        ensures
            c.tick_rate_ms == 250,
            c.git.interval_secs == 5,
            c.git.repos@.len() == 0,
    {
        Config { tick_rate_ms: default_tick_rate(), git: GitConfig::default() }
    }
}

} // verus!
