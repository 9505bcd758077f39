//! Service skeleton core: the lifecycle and shared-state subsystem of a small
//! HTTP service with health, version and metrics endpoints over a bounded
//! database connection pool.
//!
//! Everything here is stated over plain values; the process edges (sockets,
//! the database driver, timers) live outside the library and hand values in.

pub mod config;
pub mod db;
pub mod error_handler;
pub mod metrics;
pub mod model;
pub mod render;
pub mod routes;
pub mod server_state;
