//! Supervision of the remote control of the Codex app server.
pub mod auth;
pub mod jsonrpc;
pub mod secret_laws;
pub mod status;
pub mod supervisor;
pub mod supervision_laws;
