//! Lifecycle control for per-user ephemeral environments: credential
//! checks, per-user live-session counting, closure times, and the decision
//! to reclaim a user's container once its grace period has run out.

pub mod auth;
pub mod connection;
pub mod laws;
pub mod server;
pub mod session;
