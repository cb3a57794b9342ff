//! Buffered execution of a command for a client.

use vstd::prelude::*;

use crate::json::{Json, JsonV, ToJson};

verus! {

/// What a client wants executed.
pub struct CommandExecParams {
    pub command: Vec<String>,
    pub cwd: Option<String>,
    /// Variables to set, or to remove where there is no value.
    pub env: Option<Vec<(String, Option<String>)>>,
    pub process_id: Option<String>,
    pub tty: bool,
    pub stream_stdin: bool,
    pub stream_stdout_stderr: bool,
    pub disable_output_cap: bool,
    pub output_bytes_cap: Option<usize>,
    pub disable_timeout: bool,
    pub timeout_ms: Option<i64>,
}

/// What came of a command.
#[derive(Debug, PartialEq)]
pub struct CommandExecResponse {
    pub exit_code: i32,
    pub stdout: String,
    pub stderr: String,
}

/// The wire form of a command's outcome.
pub open spec fn exec_json(exit_code: int, stdout: Seq<char>, stderr: Seq<char>) -> JsonV {
    JsonV::object()
        .with("exitCode"@, JsonV::Int(exit_code))
        .with("stdout"@, JsonV::Str(stdout))
        .with("stderr"@, JsonV::Str(stderr))
}

impl ToJson for CommandExecResponse {
    open spec fn json(&self) -> JsonV {
        exec_json(self.exit_code as int, self.stdout@, self.stderr@)
    }

    fn to_json(&self) -> (j: Json) {
        Json::object()
            .with("exitCode", Json::Int(self.exit_code as i64))
            .with("stdout", Json::text(self.stdout.as_str()))
            .with("stderr", Json::text(self.stderr.as_str()))
    }
}

} // verus!
