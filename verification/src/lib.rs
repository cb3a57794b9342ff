//! Verified core of the alleycat agent bridges.

pub mod claude;
pub mod codex;
pub mod conformance;
pub mod decode;
pub mod droid;
pub mod hermes;
pub mod json;
pub mod json_text;
pub mod launch;
pub mod remote;
pub mod rpc;
pub mod text;
pub mod text_laws;
pub mod text_map;
pub mod text_set;
