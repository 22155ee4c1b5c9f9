//! A TLS-terminating reverse proxy's request pipeline: redirect responder,
//! header rewrite engine, access log and the per-connection state machine.

pub mod access_log;
pub mod config;
pub mod field;
pub mod header;
pub mod home;
pub mod orchestrator;
pub mod proxy;
pub mod redirect;
pub mod rewrite;
