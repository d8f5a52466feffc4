//! A pooled-connection adapter for PostgreSQL: a configuration template that
//! renders to a connection string, a factory that fills the template in per
//! backend, and an adapter with a two-state connect/close lifecycle.

pub mod config;
pub mod connection;
pub mod factory;
pub mod url;
