//! What a process is started with.

use vstd::prelude::*;

use crate::text::owned;

verus! {

/// Why a process is started.
#[derive(Debug, Clone, Copy, PartialEq, Eq, Structural)]
pub enum ProcessRole {
    /// An agent that a bridge keeps.
    Agent,
    /// A command that an agent or a client asked for.
    ToolCommand,
}

/// What one of the standard streams is connected to.
#[derive(Debug, Clone, Copy, PartialEq, Eq, Structural)]
pub enum StdioMode {
    Piped,
    Null,
    Inherit,
}

/// What a process is started with.
#[derive(Debug)]
pub struct ProcessSpec {
    pub role: ProcessRole,
    pub program: String,
    pub args: Vec<String>,
    pub cwd: Option<String>,
    /// Variables to set. They come on top of what is inherited, unless `env_clear`.
    pub env: Vec<(String, String)>,
    /// Whether nothing is inherited.
    pub env_clear: bool,
    pub stdin: StdioMode,
    pub stdout: StdioMode,
    pub stderr: StdioMode,
}

impl ProcessSpec {
    /// An agent process with all streams piped and nothing else set.
    pub fn new(program: &str) -> (r: ProcessSpec)
        ensures
            r.role == ProcessRole::Agent,
            r.program@ == program@,
            r.args@.len() == 0,
            r.cwd is None,
            r.env@.len() == 0,
            !r.env_clear,
            r.stdin == StdioMode::Piped,
            r.stdout == StdioMode::Piped,
            r.stderr == StdioMode::Piped,
    {
        ProcessSpec {
            role: ProcessRole::Agent,
            program: owned(program),
            args: Vec::new(),
            cwd: None,
            env: Vec::new(),
            env_clear: false,
            stdin: StdioMode::Piped,
            stdout: StdioMode::Piped,
            stderr: StdioMode::Piped,
        }
    }
}

/// The launcher that starts processes on this host.
#[derive(Debug, Clone, Copy, PartialEq, Eq, Structural)]
pub struct LocalLauncher;

impl Default for LocalLauncher {
    fn default() -> (r: Self)
        ensures
            r == LocalLauncher,
    {
        LocalLauncher
    }
}

impl LocalLauncher {
    /// The launcher.
    pub fn new() -> (r: LocalLauncher)
        ensures
            r == LocalLauncher,
    {
        LocalLauncher
    }
}

} // verus!
