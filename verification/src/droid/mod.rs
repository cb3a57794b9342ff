//! The bridge to Factory Droid.
pub mod bridge;
pub mod bridge_laws;
pub mod commands;
pub mod models;
pub mod process;
pub mod record_laws;
pub mod threads;
