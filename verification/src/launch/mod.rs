//! How agent processes are found and started.

pub mod codex_resolver;
pub mod environment_laws;
pub mod launch_environment;
pub mod launcher;
pub mod path_laws;
pub mod paths;
pub mod version_laws;
