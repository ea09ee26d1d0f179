//! Session lifecycle management for a desktop front end over a peer-to-peer
//! file-transfer engine.
//!
//! The crate owns the single mutable session slot: it enforces safe
//! reconfiguration (detach the previous record, stop it outside the lock,
//! construct, then install), exposes the command surface that resolves the
//! active session per call, and keeps the live log-filter directive.
//! Engine construction, network I/O and the async runtime live outside this
//! crate; everything here is plain state and decisions, verified.

pub mod commands;
pub mod config;
pub mod encoding;
pub mod errors;
pub mod lifecycle;
pub mod logging;
