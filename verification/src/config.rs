//! Server configuration as plain, already-validated values.
//!
//! Loading and file-format parsing are collaborators outside this
//! library; the relay consumes only the values below.

use vstd::prelude::*;

verus! {

/// Bounds on resource use.
pub struct LimitsConfig {
    /// Capacity of the broadcast channel: how many undelivered messages
    /// are retained for a slow subscriber before it is made to lag.
    pub max_in_flight_msgs: usize,
}

impl LimitsConfig {
    /// A capacity the broadcast channel accepts: at least one message,
    /// and within the allocation bound of the channel implementation.
    pub open spec fn wf(&self) -> bool {
        1 <= self.max_in_flight_msgs <= usize::MAX / 2
    }
}

impl Default for LimitsConfig {
    /// By default, retain up to 1024 undelivered messages.
    fn default() -> (c: Self)
        ensures
            c.max_in_flight_msgs == 1024,
            c.wf(),
    {
        LimitsConfig { max_in_flight_msgs: 1024 }
    }
}

/// How much the process should log.
pub struct LoggingConfig {
    /// The log-filter directive handed to the logging stack.
    pub filter: String,
}

impl Default for LoggingConfig {
    /// By default, log at the `info` level.
    fn default() -> (c: Self)
        ensures
            c.filter@ == "info"@,
    {
        LoggingConfig { filter: String::from_str("info") }
    }
}

/// One bound address, optionally named for the logs.
pub struct ListenerConfig {
    /// A human-readable name for this listener.
    pub name: String,
    /// The address the listener binds, in textual form.
    pub bind: String,
}

impl ListenerConfig {
    /// The name a listener gets when the configuration gives none.
    pub fn default_name() -> (n: String)
        ensures
            n@ == "unnamed"@,
    {
        String::from_str("unnamed")
    }
}

/// The whole server configuration.
pub struct Config {
    /// An optional greeting written once to every new client before any
    /// broadcast traffic.
    pub motd: Option<String>,
    /// Resource bounds.
    pub limits: LimitsConfig,
    /// Logging settings.
    pub logging: LoggingConfig,
    /// The addresses to listen on.
    pub listeners: Vec<ListenerConfig>,
}

impl Config {
    /// A configuration the relay can run with.
    pub open spec fn wf(&self) -> bool {
        self.limits.wf()
    }
}

} // verus!
