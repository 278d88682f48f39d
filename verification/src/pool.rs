//! How the service connects to its database.

use vstd::prelude::*;

verus! {

/// The database section of the service's configuration.
pub struct Config {
    pub url: String,
    pub min_connections: Option<u32>,
    pub max_connections: usize,
    /// In seconds.
    pub connect_timeout: u64,
    /// In seconds.
    pub idle_timeout: Option<u64>,
    pub sqlx_logging: bool,
}

/// The options to connect with.
pub struct ConnectPlan {
    pub url: String,
    pub max_connections: u32,
    pub min_connections: u32,
    pub connect_timeout_secs: u64,
    pub idle_timeout_secs: Option<u64>,
    pub sqlx_logging: bool,
}

/// The options that a configuration asks for: the upper bound of the pool
/// is cut to 32 bits, a lower bound that is not given is zero, and an idle
/// timeout is set only where one is given.
pub fn connect_plan(config: Config) -> (plan: ConnectPlan)
    ensures
        plan.url@ == config.url@,
        plan.max_connections == config.max_connections as u32,
        plan.min_connections == match config.min_connections {
            Some(n) => n,
            None => 0,
        },
        plan.connect_timeout_secs == config.connect_timeout,
        plan.idle_timeout_secs == config.idle_timeout,
        plan.sqlx_logging == config.sqlx_logging,
{
    ConnectPlan {
        url: config.url,
        max_connections: #[verifier::truncate]
        (config.max_connections as u32),
        min_connections: match config.min_connections {
            Some(n) => n,
            None => 0,
        },
        connect_timeout_secs: config.connect_timeout,
        idle_timeout_secs: config.idle_timeout,
        sqlx_logging: config.sqlx_logging,
    }
}

/// Whether the service must run the schema steps before it accepts traffic:
/// it must as soon as one step is pending.
pub fn must_migrate(pending: usize) -> (must: bool)
    ensures
        must == (pending > 0),
{
    pending > 0
}

} // verus!
