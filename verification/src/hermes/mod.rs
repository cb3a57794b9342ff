//! The Hermes bridge: durable run state, event log, run pump and dispatch.

pub mod api_client;
pub mod bridge;
pub mod bridge_laws;
pub mod config;
pub mod event_store;
pub mod health_cache;
pub mod index;
pub mod input;
pub mod input_laws;
pub mod log_laws;
pub mod outcome_laws;
pub mod record_laws;
pub mod run_file;
pub mod run_laws;
pub mod run_manager;
pub mod run_state;
pub mod sse;
pub mod thread_laws;
pub mod threads;
pub mod turn_log;
