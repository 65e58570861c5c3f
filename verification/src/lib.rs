//! Session authentication and the authenticated write path of a small
//! measurement gateway.
//!
//! The crate holds the decisions of the service: which credentials are known,
//! which tokens are valid at a given moment, which requests may reach the
//! time-series backend and how every outcome is rendered to the caller. The
//! HTTP server and the backend client live outside of it and exchange plain
//! values with it.

pub mod config;
pub mod credentials;
pub mod pipeline;
pub mod response;
pub mod session;
pub mod text;
pub mod token;
