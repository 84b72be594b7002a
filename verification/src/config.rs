//! The options that the mediator is run with.

use vstd::prelude::*;
use vstd::string::*;

verus! {

/// The options of one process. They are read once and never changed.
#[derive(Debug, Clone)]
pub struct Config {
    /// The port to listen on.
    pub port: u16,
    /// The address of the store.
    pub redis_url: String,
    /// The most rows that a scan returns; zero switches scans off.
    pub scan_limit: usize,
    /// The most requests of one client in one window; zero switches the
    /// limiter off.
    pub rate_limit: u32,
    /// The length of a window in seconds.
    pub rate_window: u64,
    /// Whether scans are allowed at all.
    pub allow_scan: bool,
    /// The level from which records are emitted.
    pub log_level: String,
}

impl Config {
    /// Whether a scan may run: scans must be allowed, and the most rows
    /// that one may return must not be zero.
    pub open spec fn scans_enabled(&self) -> bool {
        self.allow_scan && self.scan_limit > 0
    }

    /// Whether a scan may run.
    pub fn scan_enabled(&self) -> (enabled: bool)
        ensures
            enabled == self.scans_enabled(),
    {
        self.allow_scan && self.scan_limit > 0
    }
}

impl Default for Config {
    /// The options that hold where none is given.
    fn default() -> (config: Config)
        ensures
            config.port == 3306,
            config.redis_url@ == "redis://127.0.0.1:6379"@,
            config.scan_limit == 100,
            config.rate_limit == 100,
            config.rate_window == 60,
            config.allow_scan,
            config.log_level@ == "info"@,
    {
        Config {
            port: 3306,
            redis_url: "redis://127.0.0.1:6379".to_owned(),
            scan_limit: 100,
            rate_limit: 100,
            rate_window: 60,
            allow_scan: true,
            log_level: "info".to_owned(),
        }
    }
}

} // verus!
