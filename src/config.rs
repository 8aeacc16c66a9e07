//! Connection settings of the relational store.

use vstd::prelude::*;

verus! {

/// Where the relational store is.
#[derive(Debug, Clone)]
pub struct DatabaseConfig {
    pub url: String,
}

/// The largest number of pooled connections.
pub const DEFAULT_MAX_CONNECTIONS: u32 = 10;

/// Seconds to wait for a pooled connection.
pub const ACQUIRE_TIMEOUT_SECS: u64 = 5;

/// Seconds after which an idle connection is closed.
pub const IDLE_TIMEOUT_SECS: u64 = 600;

/// Seconds after which any connection is replaced.
pub const MAX_LIFETIME_SECS: u64 = 1800;

/// The port of the store when none is configured.
pub const DEFAULT_PORT: u16 = 5432;

} // verus!
