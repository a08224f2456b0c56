//! A health-check service backed by a managed database connection pool.
//!
//! The library holds the verified core of the service: the pool
//! configuration and its invariant, the startup decision (missing
//! configuration is fatal, a failed first connection is fatal), port
//! resolution from an optional environment value, request routing, and
//! the JSON health payload. Everything that talks to the network (the
//! actual pool, the HTTP listener) lives outside the library and hands
//! plain values in and out.

pub mod config;
pub mod health;
pub mod port;
pub mod service;
pub mod startup;
