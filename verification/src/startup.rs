//! The startup decision: what must hold before the listener may bind.
//!
//! Startup is strictly sequential: the connection string must be
//! present, the pool must be built, and a first connection must be
//! established, before any request can be served. Both failures are
//! fatal; there is no degraded startup mode.

use vstd::prelude::*;
use crate::config::{PoolConfig, spec_default_config};
use crate::port::{DEFAULT_PORT, spec_port_of, resolve_port};

verus! {

/// A fatal startup failure.
#[derive(Clone, Copy, PartialEq, Eq, Structural, Debug)]
pub enum InitError {
    /// The connection string was not configured.
    ConfigMissing,
    /// The first pooled connection could not be established.
    ConnectionFailed,
}

/// The outcome of the first connection attempt against the configured
/// connection string.
#[derive(Clone, Copy, PartialEq, Eq, Structural, Debug)]
pub enum ConnectOutcome {
    Established,
    Failed,
}

/// Everything startup decided before any connection is attempted: the
/// connection string, a valid pool configuration, and the port the
/// listener will bind.
#[derive(Debug)]
pub struct StartupPlan {
    pub database_url: String,
    pub config: PoolConfig,
    pub port: u16,
}

/// Decides whether startup may proceed, from the configured values: a
/// missing connection string is fatal, so no plan (and hence no bound
/// listener) exists without one. A present connection string always
/// yields a plan, with the fixed pool configuration and the resolved
/// port.
pub fn plan_startup(database_url: Option<String>, port_var: Option<&str>) -> (r: Result<
    StartupPlan,
    InitError,
>)
    ensures
        r is Err <==> database_url is None,
        r is Err ==> r == Err::<StartupPlan, InitError>(InitError::ConfigMissing),
        (match database_url {
            None => true,
            Some(u) => r matches Ok(p) && p.database_url@ == u@ && p.config
                == spec_default_config() && p.config.valid() && p.port == (match port_var {
                None => DEFAULT_PORT,
                Some(s) => spec_port_of(Some(s@)),
            }),
        }),
{
    match database_url {
        None => Err(InitError::ConfigMissing),
        Some(u) => {
            let config = PoolConfig::default_config();
            let port = resolve_port(port_var);
            Ok(StartupPlan { database_url: u, config, port })
        },
    }
}

/// How startup proceeds after the first connection attempt.
pub open spec fn spec_confirm(outcome: ConnectOutcome) -> Result<(), InitError> {
    match outcome {
        ConnectOutcome::Established => Ok(()),
        ConnectOutcome::Failed => Err(InitError::ConnectionFailed),
    }
}

/// Decides whether startup proceeds once the first connection attempt
/// has an outcome: a failure is fatal, anything less than an
/// established connection never serves traffic.
pub fn confirm_connection(outcome: ConnectOutcome) -> (r: Result<(), InitError>)
    ensures
        r == spec_confirm(outcome),
        r is Ok <==> outcome == ConnectOutcome::Established,
{
    match outcome {
        ConnectOutcome::Established => Ok(()),
        ConnectOutcome::Failed => Err(InitError::ConnectionFailed),
    }
}

/// Under a valid configuration and a present connection string, pool
/// initialization is decided exactly by reachability: it succeeds when
/// the first connection is established and fails, with a connection
/// failure, when it is not.
pub proof fn lemma_initialization_iff_reachable(config: PoolConfig, outcome: ConnectOutcome)
    requires
        config.valid(),
    ensures
        spec_confirm(outcome) is Ok <==> outcome is Established,
        spec_confirm(outcome) is Err ==> spec_confirm(outcome) == Err::<(), InitError>(
            InitError::ConnectionFailed,
        ),
{
}

} // verus!
