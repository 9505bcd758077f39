//! The state bundle shared by every request handler: the connection pool, the
//! metrics registry and the resolved configuration. Constructed once at
//! startup; handlers read it, and only the pool's checkout discipline and the
//! metrics registry's own writers change anything inside it.

use vstd::prelude::*;
use crate::config::ServerConfig;
use crate::db::{acquired, Connection, ConnectionPool, PoolError, POOL_TIMEOUT_MESSAGE};
use crate::error_handler::CustomError;
use crate::metrics::Metrics;

verus! {

/// The prefix a failed checkout's diagnostic carries when it is surfaced as a
/// user-visible error.
pub const DB_CONNECTION_ERROR_PREFIX: &'static str = "Failed getting db connection: ";

/// Server state and configuration.
#[derive(Debug, PartialEq, Eq)]
pub struct ServerState {
    /// Database connection pool.
    pub db_connection_pool: ConnectionPool,
    pub metrics: Metrics,
    pub config: ServerConfig,
}

impl ServerState {
    /// Bundles the pool, the registry and the configuration, unchanged.
    pub fn new(
        db_connection_pool: ConnectionPool,
        metrics: Metrics,
        config: ServerConfig,
    ) -> (r: ServerState)
        ensures
            r.db_connection_pool == db_connection_pool,
            r.metrics == metrics,
            r.config == config,
    {
        ServerState { db_connection_pool, metrics, config }
    }

    /// Checks a connection out of the pool for one request. Succeeds exactly
    /// when a free connection exists; on failure the pool is untouched and the
    /// caller gets a uniform user-visible error. The metrics and configuration
    /// are never touched by this path.
    pub fn db_connection(&mut self) -> (r: Result<Connection, CustomError>)
        ensures
            r is Ok <==> exists|i: int|
                0 <= i < old(self).db_connection_pool@.len()
                    && !old(self).db_connection_pool@[i],
            r matches Ok(c) ==> acquired(
                old(self).db_connection_pool@,
                final(self).db_connection_pool@,
                c.slot as int,
            ),
            r is Err ==> final(self).db_connection_pool@ == old(self).db_connection_pool@,
            r matches Err(e) ==> e.error_status_code == 500 && e.error_message@
                == DB_CONNECTION_ERROR_PREFIX@ + POOL_TIMEOUT_MESSAGE@,
            final(self).metrics == old(self).metrics,
            final(self).config == old(self).config,
    {
        match self.db_connection_pool.acquire() {
            Ok(connection) => Ok(connection),
            Err(PoolError::Unavailable(cause)) => {
                let mut message = String::from_str(DB_CONNECTION_ERROR_PREFIX);
                message.append(cause.as_str());
                Err(CustomError::new(500, message))
            },
        }
    }

    /// Returns a checked-out connection to the pool.
    pub fn return_connection(&mut self, connection: Connection)
        requires
            connection.slot < old(self).db_connection_pool@.len(),
            old(self).db_connection_pool@[connection.slot as int],
        ensures
            final(self).db_connection_pool@ == old(self).db_connection_pool@.update(
                connection.slot as int,
                false,
            ),
            final(self).metrics == old(self).metrics,
            final(self).config == old(self).config,
    {
        self.db_connection_pool.release(connection);
    }
}

} // verus!
