//! The codex app-server protocol: threads, turns, items and notifications.

pub mod answer_laws;
pub mod answers;
pub mod command_exec;
pub mod methods;
pub mod models;
pub mod notifications;
pub mod policy;
pub mod thread;
pub mod wire_laws;
