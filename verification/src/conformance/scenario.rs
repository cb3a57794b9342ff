//! The scenario that every target goes through.
//!
//! Each target gets the same requests, and every response and notification is
//! recorded. A refusal is recorded like any other response: whether it was to be
//! expected is for the comparison to say. The scenario is a state machine: it says
//! what to do next, and is told what came of it.

use vstd::prelude::*;

use super::semantics::{ContextV, SemanticContext, fresh_context};
use super::transcript::{AssistantName, Frame, FrameKind, FrameV, TargetId, Transcript, frames, target_label};
use crate::json::{Json, JsonV, jsons};
use crate::text::{
    hexadecimal, hexadecimal_u128, is_listed, join2, join3, listed, opt_same, opt_text, owned, same,
};

verus! {

// ---------------------------------------------------------------------------
// Configuration
// ---------------------------------------------------------------------------
/// What a run of the scenario can be told.
pub struct ScenarioConfig {
    /// Working directory of threads and commands.
    pub cwd: String,
    /// Time for a small request, in milliseconds.
    pub default_deadline_ms: u64,
    /// Time for a turn, in milliseconds.
    pub turn_deadline_ms: u64,
    /// How long the line has to be quiet after a request, in milliseconds.
    pub post_request_idle_ms: u64,
    /// Prompt of the turn with a short reply.
    pub prompt: String,
    /// Prompt of the turn that needs a tool; where it is empty, the run makes one.
    pub tool_prompt: String,
    pub client_name: String,
    pub client_version: String,
    /// Model to ask for, where the default of the target is no good.
    pub model: Option<String>,
    /// Whether the thread of earlier runs is used again.
    pub reuse_thread_cache: bool,
    /// Whether requests that spoil a thread are made, on a thread of their own.
    pub exercise_mutations: bool,
}

impl ScenarioConfig {
    /// The configuration for a target. `opencode_model` and `skip_mutations` come from
    /// the environment; `assistant` is the name of the coding assistant.
    pub fn for_target(
        target: TargetId,
        assistant: &AssistantName,
        cwd: String,
        version: &str,
        opencode_model: Option<String>,
        skip_mutations: Option<&str>,
    ) -> (r: ScenarioConfig)
        ensures
            r.cwd == cwd,
            r.default_deadline_ms == 20_000,
            r.turn_deadline_ms == (if target == TargetId::Acp {
                180_000u64
            } else {
                60_000u64
            }),
            r.post_request_idle_ms == 150,
            r.prompt@ == "Reply with exactly the word OK and nothing else."@,
            r.tool_prompt@.len() == 0,
            r.client_name@ == "alleycat-bridge-conformance/"@ + target_label(target, assistant@),
            r.client_version@ == version@,
            opt_text(r.model) == (if target == TargetId::Opencode {
                match opencode_model {
                    Some(m) => if crate::text::blank(m@) {
                        Some("xai/grok-4.3"@)
                    } else {
                        Some(m@)
                    },
                    None => Some("xai/grok-4.3"@),
                }
            } else {
                None
            }),
            r.reuse_thread_cache == (target != TargetId::Acp),
            r.exercise_mutations == !(skip_mutations matches Some(s) && s@ == "1"@),
    {
        let model = match target {
            TargetId::Opencode => match opencode_model {
                Some(m) => if crate::text::is_blank(m.as_str()) {
                    Some(owned("xai/grok-4.3"))
                } else {
                    Some(m)
                },
                None => Some(owned("xai/grok-4.3")),
            },
            _ => None,
        };
        let acp = match target {
            TargetId::Acp => true,
            _ => false,
        };
        ScenarioConfig {
            cwd,
            default_deadline_ms: 20_000,
            turn_deadline_ms: if acp {
                180_000
            } else {
                60_000
            },
            post_request_idle_ms: 150,
            prompt: owned("Reply with exactly the word OK and nothing else."),
            tool_prompt: String::new(),
            client_name: join2("alleycat-bridge-conformance/", target.label(assistant)),
            client_version: owned(version),
            model,
            reuse_thread_cache: !acp,
            exercise_mutations: !opt_same(skip_mutations, "1"),
        }
    }
}

/// The request that cleans a thread up: it is archived.
pub fn cleanup_request(thread_id: &str) -> (r: (&'static str, Json))
    ensures
        r.0@ == "thread/archive"@,
        r.1.view() == JsonV::object().with("threadId"@, JsonV::Str(thread_id@)),
{
    ("thread/archive", Json::object().with("threadId", Json::text(thread_id)))
}

/// The prompt that makes an agent use its shell: only the file has the marker.
pub open spec fn tool_prompt_for(path: Seq<char>) -> Seq<char> {
    "Use a shell command to read the file `"@ + path
        + "` and report the literal contents. The file exists; you must run the command (for example, `cat "@
        + path
        + "`). Do not guess or skip the tool; the contents are random and unguessable."@
}

fn make_tool_prompt(path: &str) -> (r: String)
    ensures
        r@ == tool_prompt_for(path@),
{
    let mut out = join3(
        "Use a shell command to read the file `",
        path,
        "` and report the literal contents. The file exists; you must run the command (for example, `cat ",
    );
    out.append(path);
    out.append("`). Do not guess or skip the tool; the contents are random and unguessable.");
    out
}

/// A token that nothing else knows, made of the time in nanoseconds.
pub fn fresh_marker(nanos: u128) -> (r: String)
    ensures
        r@ == "alleycat-conformance-"@ + hexadecimal(nanos as nat),
{
    join2("alleycat-conformance-", hexadecimal_u128(nanos).as_str())
}

// ---------------------------------------------------------------------------
// Stages
// ---------------------------------------------------------------------------
/// Where a run of the scenario is.
#[derive(Debug, Clone, Copy, PartialEq, Eq, Structural)]
pub enum Stage {
    /// Introduce the client.
    Initialize,
    /// Tell the target that the client is ready.
    Initialized,
    /// Ask one of the questions that change nothing.
    ReadOnly(usize),
    /// List the threads.
    ThreadList,
    /// Look up the thread of earlier runs.
    Load,
    /// Resume the thread of earlier runs.
    ResumeCached,
    /// Forget the thread of earlier runs.
    Clear,
    /// Start a thread.
    StartThread,
    /// Remember the thread for later runs.
    Save,
    /// A turn with a short reply.
    Turn,
    /// Read the thread.
    ReadThread,
    /// A turn that needs a tool.
    ToolTurn,
    /// Read the thread again.
    ReadAfterTool,
    /// Attach to the thread again.
    Resume,
    /// Name the thread.
    Rename,
    /// Start a thread that may be spoilt.
    StartDisposable,
    /// A turn in it.
    SeedTurn,
    /// List it.
    ListDisposable,
    /// Fork it.
    Fork,
    /// A turn that goes on for long.
    Interruptible,
    /// Let it go on for a moment.
    Pause,
    /// Steer it.
    Steer,
    /// Interrupt it.
    Interrupt,
    /// List its turns.
    TurnsList,
    /// List the loaded threads.
    LoadedList,
    /// Read it.
    ReadBeforeRollback,
    /// Roll a turn back.
    Rollback,
    /// Compact it.
    Compact,
    /// Start a command whose output is streamed.
    ExecStart,
    /// Wait for its first output.
    ExecStartup,
    /// Write to it.
    ExecWrite,
    /// Resize its terminal.
    ExecResize,
    /// Terminate it.
    ExecTerminate,
    /// Wait for its end.
    ExecWait,
    /// Archive the thread.
    Archive,
    /// List the archived threads.
    ListArchived,
    /// Bring it back.
    Unarchive,
    /// List it again.
    ListUnarchived,
    /// Archive it for good.
    Cleanup,
    /// Run a command.
    Exec,
    /// Archive it after a failure.
    Abandon,
    /// The end.
    Finished,
    /// The end, after a failure.
    Failed,
}

/// What follows a response.
#[derive(Debug, Clone, Copy, PartialEq, Eq, Structural)]
pub enum Tail {
    /// The next stage.
    Nothing,
    /// Notifications until the line is quiet.
    Idle,
    /// Notifications until the turn is over.
    UntilDone,
    /// Notifications until the reply begins or the turn is over.
    UntilDelta,
}

/// The questions that change nothing.
pub const READ_ONLY_OPS: [&'static str; 7] = [
    "config/read",
    "model/list",
    "experimentalFeature/list",
    "collaborationMode/list",
    "mcpServerStatus/list",
    "skills/list",
    "account/read",
];

/// The notification that ends a turn.
pub const UNTIL_DONE: [&'static str; 1] = ["turn/completed"];

/// The notifications that end the wait for a reply.
pub const UNTIL_DELTA: [&'static str; 2] = ["item/agentMessage/delta", "turn/completed"];

/// The notification that a command has put something out.
pub const UNTIL_OUTPUT: [&'static str; 1] = ["command/exec/outputDelta"];

/// How long the first output of a command is awaited, in milliseconds.
pub const STARTUP_MS: u64 = 2_000;

/// How long a turn goes on before it is interrupted, in milliseconds.
pub const PAUSE_MS: u64 = 50;

/// One of the questions that change nothing.
pub open spec fn read_only(i: int) -> Seq<char> {
    if 0 <= i < READ_ONLY_OPS@.len() {
        READ_ONLY_OPS@[i]@
    } else {
        seq![]
    }
}

fn read_only_op(i: usize) -> (r: &'static str)
    ensures
        r@ == read_only(i as int),
{
    if i < 7 {
        READ_ONLY_OPS[i]
    } else {
        assert(""@ =~= seq![]) by {
            reveal_strlit("");
        }
        ""
    }
}

/// The step under which the frames of a stage are recorded.
pub open spec fn step_of(stage: Stage) -> Seq<char> {
    match stage {
        Stage::Initialize => "initialize"@,
        Stage::ReadOnly(i) => read_only(i as int),
        Stage::ThreadList => "thread/list"@,
        Stage::ResumeCached => "thread/resume"@,
        Stage::StartThread => "thread/start"@,
        Stage::Turn => "turn/start"@,
        Stage::ReadThread => "thread/read"@,
        Stage::ToolTurn => "turn/start.tool"@,
        Stage::ReadAfterTool => "thread/read.afterTool"@,
        Stage::Resume => "thread/resume"@,
        Stage::Rename => "thread/name/set"@,
        Stage::StartDisposable => "thread/start.disposable"@,
        Stage::SeedTurn => "turn/start.disposableSeed"@,
        Stage::ListDisposable => "thread/list.disposable"@,
        Stage::Fork => "thread/fork"@,
        Stage::Interruptible => "turn/start.interruptible"@,
        Stage::Steer => "turn/steer"@,
        Stage::Interrupt => "turn/interrupt"@,
        Stage::TurnsList => "thread/turns/list"@,
        Stage::LoadedList => "thread/loaded/list"@,
        Stage::ReadBeforeRollback => "thread/read.beforeRollback"@,
        Stage::Rollback => "thread/rollback"@,
        Stage::Compact => "thread/compact/start"@,
        Stage::ExecStart => "command/exec.streaming"@,
        Stage::ExecStartup => "command/exec.streaming"@,
        Stage::ExecWrite => "command/exec/write"@,
        Stage::ExecResize => "command/exec/resize"@,
        Stage::ExecTerminate => "command/exec/terminate"@,
        Stage::ExecWait => "command/exec.streaming"@,
        Stage::Archive => "thread/archive"@,
        Stage::ListArchived => "thread/list.archived"@,
        Stage::Unarchive => "thread/unarchive"@,
        Stage::ListUnarchived => "thread/list.unarchived"@,
        Stage::Exec => "command/exec"@,
        _ => seq![],
    }
}

/// The method that a stage calls.
pub open spec fn method_of(stage: Stage) -> Seq<char> {
    match stage {
        Stage::Initialize => "initialize"@,
        Stage::ReadOnly(i) => read_only(i as int),
        Stage::ThreadList => "thread/list"@,
        Stage::ResumeCached => "thread/resume"@,
        Stage::StartThread => "thread/start"@,
        Stage::Turn => "turn/start"@,
        Stage::ReadThread => "thread/read"@,
        Stage::ToolTurn => "turn/start"@,
        Stage::ReadAfterTool => "thread/read"@,
        Stage::Resume => "thread/resume"@,
        Stage::Rename => "thread/name/set"@,
        Stage::StartDisposable => "thread/start"@,
        Stage::SeedTurn => "turn/start"@,
        Stage::ListDisposable => "thread/list"@,
        Stage::Fork => "thread/fork"@,
        Stage::Interruptible => "turn/start"@,
        Stage::Steer => "turn/steer"@,
        Stage::Interrupt => "turn/interrupt"@,
        Stage::TurnsList => "thread/turns/list"@,
        Stage::LoadedList => "thread/loaded/list"@,
        Stage::ReadBeforeRollback => "thread/read"@,
        Stage::Rollback => "thread/rollback"@,
        Stage::Compact => "thread/compact/start"@,
        Stage::ExecStart => "command/exec"@,
        Stage::ExecStartup => "command/exec"@,
        Stage::ExecWrite => "command/exec/write"@,
        Stage::ExecResize => "command/exec/resize"@,
        Stage::ExecTerminate => "command/exec/terminate"@,
        Stage::ExecWait => "command/exec"@,
        Stage::Archive => "thread/archive"@,
        Stage::ListArchived => "thread/list"@,
        Stage::Unarchive => "thread/unarchive"@,
        Stage::ListUnarchived => "thread/list"@,
        Stage::Exec => "command/exec"@,
        _ => seq![],
    }
}

/// What follows the response in a stage.
pub open spec fn tail_of(stage: Stage) -> Tail {
    match stage {
        Stage::Initialize => Tail::Nothing,
        Stage::ReadOnly(_) => Tail::Idle,
        Stage::ThreadList => Tail::Idle,
        Stage::ResumeCached => Tail::Idle,
        Stage::StartThread => Tail::Idle,
        Stage::Turn => Tail::UntilDone,
        Stage::ReadThread => Tail::Idle,
        Stage::ToolTurn => Tail::UntilDone,
        Stage::ReadAfterTool => Tail::Idle,
        Stage::Resume => Tail::Idle,
        Stage::Rename => Tail::Idle,
        Stage::StartDisposable => Tail::Idle,
        Stage::SeedTurn => Tail::UntilDone,
        Stage::ListDisposable => Tail::Idle,
        Stage::Fork => Tail::Idle,
        Stage::Interruptible => Tail::UntilDelta,
        Stage::Steer => Tail::Idle,
        Stage::Interrupt => Tail::UntilDone,
        Stage::TurnsList => Tail::Idle,
        Stage::LoadedList => Tail::Idle,
        Stage::ReadBeforeRollback => Tail::Idle,
        Stage::Rollback => Tail::Idle,
        Stage::Compact => Tail::Idle,
        Stage::ExecStart => Tail::Nothing,
        Stage::ExecStartup => Tail::Nothing,
        Stage::ExecWrite => Tail::Idle,
        Stage::ExecResize => Tail::Idle,
        Stage::ExecTerminate => Tail::Idle,
        Stage::ExecWait => Tail::Idle,
        Stage::Archive => Tail::Idle,
        Stage::ListArchived => Tail::Idle,
        Stage::Unarchive => Tail::Idle,
        Stage::ListUnarchived => Tail::Idle,
        Stage::Exec => Tail::Idle,
        _ => Tail::Nothing,
    }
}

/// Whether a stage has the time of a turn.
pub open spec fn is_slow(stage: Stage) -> bool {
    stage == Stage::Turn || stage == Stage::ToolTurn || stage == Stage::SeedTurn || stage
        == Stage::Interruptible
}

/// What an error in a stage is told with.
pub open spec fn context_of(stage: Stage) -> Seq<char> {
    match stage {
        Stage::Initialize => "initialize"@,
        Stage::ReadOnly(i) => read_only(i as int),
        Stage::ThreadList => "thread/list"@,
        Stage::ResumeCached => "thread/resume"@,
        Stage::StartThread => "thread/start"@,
        Stage::Turn => "turn/start"@,
        Stage::ReadThread => "thread/read"@,
        Stage::ToolTurn => "turn/start (tool)"@,
        Stage::ReadAfterTool => "thread/read (after tool)"@,
        Stage::Resume => "thread/resume"@,
        Stage::Rename => "thread/name/set"@,
        Stage::StartDisposable => "thread/start disposable"@,
        Stage::SeedTurn => "turn/start disposable seed"@,
        Stage::ListDisposable => "thread/list disposable"@,
        Stage::Fork => "thread/fork"@,
        Stage::Interruptible => "turn/start interruptible"@,
        Stage::Steer => "turn/steer"@,
        Stage::Interrupt => "turn/interrupt"@,
        Stage::TurnsList => "thread/turns/list"@,
        Stage::LoadedList => "thread/loaded/list"@,
        Stage::ReadBeforeRollback => "thread/read before rollback"@,
        Stage::Rollback => "thread/rollback"@,
        Stage::Compact => "thread/compact/start"@,
        Stage::ExecStart => "command/exec streaming send"@,
        Stage::ExecStartup => "draining command/exec streaming startup"@,
        Stage::ExecWrite => "command/exec/write"@,
        Stage::ExecResize => "command/exec/resize"@,
        Stage::ExecTerminate => "command/exec/terminate"@,
        Stage::ExecWait => "command/exec streaming response"@,
        Stage::Archive => "thread/archive"@,
        Stage::ListArchived => "thread/list archived"@,
        Stage::Unarchive => "thread/unarchive"@,
        Stage::ListUnarchived => "thread/list unarchived"@,
        Stage::Exec => "command/exec"@,
        _ => "initialized"@,
    }
}

impl Stage {
    /// The step under which the frames of this stage are recorded.
    pub fn step(self) -> (r: &'static str)
        ensures
            r@ == step_of(self),
    {
        proof {
            reveal_strlit("");
            assert(""@ =~= seq![]);
        }
        match self {
        Stage::Initialize => "initialize",
        Stage::ReadOnly(i) => read_only_op(i),
        Stage::ThreadList => "thread/list",
        Stage::ResumeCached => "thread/resume",
        Stage::StartThread => "thread/start",
        Stage::Turn => "turn/start",
        Stage::ReadThread => "thread/read",
        Stage::ToolTurn => "turn/start.tool",
        Stage::ReadAfterTool => "thread/read.afterTool",
        Stage::Resume => "thread/resume",
        Stage::Rename => "thread/name/set",
        Stage::StartDisposable => "thread/start.disposable",
        Stage::SeedTurn => "turn/start.disposableSeed",
        Stage::ListDisposable => "thread/list.disposable",
        Stage::Fork => "thread/fork",
        Stage::Interruptible => "turn/start.interruptible",
        Stage::Steer => "turn/steer",
        Stage::Interrupt => "turn/interrupt",
        Stage::TurnsList => "thread/turns/list",
        Stage::LoadedList => "thread/loaded/list",
        Stage::ReadBeforeRollback => "thread/read.beforeRollback",
        Stage::Rollback => "thread/rollback",
        Stage::Compact => "thread/compact/start",
        Stage::ExecStart => "command/exec.streaming",
        Stage::ExecStartup => "command/exec.streaming",
        Stage::ExecWrite => "command/exec/write",
        Stage::ExecResize => "command/exec/resize",
        Stage::ExecTerminate => "command/exec/terminate",
        Stage::ExecWait => "command/exec.streaming",
        Stage::Archive => "thread/archive",
        Stage::ListArchived => "thread/list.archived",
        Stage::Unarchive => "thread/unarchive",
        Stage::ListUnarchived => "thread/list.unarchived",
        Stage::Exec => "command/exec",
        _ => "",
        }
    }

    /// The method that this stage calls.
    pub fn method(self) -> (r: &'static str)
        ensures
            r@ == method_of(self),
    {
        proof {
            reveal_strlit("");
            assert(""@ =~= seq![]);
        }
        match self {
        Stage::Initialize => "initialize",
        Stage::ReadOnly(i) => read_only_op(i),
        Stage::ThreadList => "thread/list",
        Stage::ResumeCached => "thread/resume",
        Stage::StartThread => "thread/start",
        Stage::Turn => "turn/start",
        Stage::ReadThread => "thread/read",
        Stage::ToolTurn => "turn/start",
        Stage::ReadAfterTool => "thread/read",
        Stage::Resume => "thread/resume",
        Stage::Rename => "thread/name/set",
        Stage::StartDisposable => "thread/start",
        Stage::SeedTurn => "turn/start",
        Stage::ListDisposable => "thread/list",
        Stage::Fork => "thread/fork",
        Stage::Interruptible => "turn/start",
        Stage::Steer => "turn/steer",
        Stage::Interrupt => "turn/interrupt",
        Stage::TurnsList => "thread/turns/list",
        Stage::LoadedList => "thread/loaded/list",
        Stage::ReadBeforeRollback => "thread/read",
        Stage::Rollback => "thread/rollback",
        Stage::Compact => "thread/compact/start",
        Stage::ExecStart => "command/exec",
        Stage::ExecStartup => "command/exec",
        Stage::ExecWrite => "command/exec/write",
        Stage::ExecResize => "command/exec/resize",
        Stage::ExecTerminate => "command/exec/terminate",
        Stage::ExecWait => "command/exec",
        Stage::Archive => "thread/archive",
        Stage::ListArchived => "thread/list",
        Stage::Unarchive => "thread/unarchive",
        Stage::ListUnarchived => "thread/list",
        Stage::Exec => "command/exec",
        _ => "",
        }
    }

    /// What follows the response in this stage.
    pub fn tail(self) -> (r: Tail)
        ensures
            r == tail_of(self),
    {
        match self {
        Stage::Initialize => Tail::Nothing,
        Stage::ReadOnly(_) => Tail::Idle,
        Stage::ThreadList => Tail::Idle,
        Stage::ResumeCached => Tail::Idle,
        Stage::StartThread => Tail::Idle,
        Stage::Turn => Tail::UntilDone,
        Stage::ReadThread => Tail::Idle,
        Stage::ToolTurn => Tail::UntilDone,
        Stage::ReadAfterTool => Tail::Idle,
        Stage::Resume => Tail::Idle,
        Stage::Rename => Tail::Idle,
        Stage::StartDisposable => Tail::Idle,
        Stage::SeedTurn => Tail::UntilDone,
        Stage::ListDisposable => Tail::Idle,
        Stage::Fork => Tail::Idle,
        Stage::Interruptible => Tail::UntilDelta,
        Stage::Steer => Tail::Idle,
        Stage::Interrupt => Tail::UntilDone,
        Stage::TurnsList => Tail::Idle,
        Stage::LoadedList => Tail::Idle,
        Stage::ReadBeforeRollback => Tail::Idle,
        Stage::Rollback => Tail::Idle,
        Stage::Compact => Tail::Idle,
        Stage::ExecStart => Tail::Nothing,
        Stage::ExecStartup => Tail::Nothing,
        Stage::ExecWrite => Tail::Idle,
        Stage::ExecResize => Tail::Idle,
        Stage::ExecTerminate => Tail::Idle,
        Stage::ExecWait => Tail::Idle,
        Stage::Archive => Tail::Idle,
        Stage::ListArchived => Tail::Idle,
        Stage::Unarchive => Tail::Idle,
        Stage::ListUnarchived => Tail::Idle,
        Stage::Exec => Tail::Idle,
        _ => Tail::Nothing,
        }
    }

    /// Whether this stage has the time of a turn.
    pub fn slow(self) -> (r: bool)
        ensures
            r == is_slow(self),
    {
        self == Stage::Turn || self == Stage::ToolTurn || self == Stage::SeedTurn || self
            == Stage::Interruptible
    }

    /// What an error in this stage is told with.
    pub fn context(self) -> (r: &'static str)
        ensures
            r@ == context_of(self),
    {
        match self {
        Stage::Initialize => "initialize",
        Stage::ReadOnly(i) => read_only_op(i),
        Stage::ThreadList => "thread/list",
        Stage::ResumeCached => "thread/resume",
        Stage::StartThread => "thread/start",
        Stage::Turn => "turn/start",
        Stage::ReadThread => "thread/read",
        Stage::ToolTurn => "turn/start (tool)",
        Stage::ReadAfterTool => "thread/read (after tool)",
        Stage::Resume => "thread/resume",
        Stage::Rename => "thread/name/set",
        Stage::StartDisposable => "thread/start disposable",
        Stage::SeedTurn => "turn/start disposable seed",
        Stage::ListDisposable => "thread/list disposable",
        Stage::Fork => "thread/fork",
        Stage::Interruptible => "turn/start interruptible",
        Stage::Steer => "turn/steer",
        Stage::Interrupt => "turn/interrupt",
        Stage::TurnsList => "thread/turns/list",
        Stage::LoadedList => "thread/loaded/list",
        Stage::ReadBeforeRollback => "thread/read before rollback",
        Stage::Rollback => "thread/rollback",
        Stage::Compact => "thread/compact/start",
        Stage::ExecStart => "command/exec streaming send",
        Stage::ExecStartup => "draining command/exec streaming startup",
        Stage::ExecWrite => "command/exec/write",
        Stage::ExecResize => "command/exec/resize",
        Stage::ExecTerminate => "command/exec/terminate",
        Stage::ExecWait => "command/exec streaming response",
        Stage::Archive => "thread/archive",
        Stage::ListArchived => "thread/list archived",
        Stage::Unarchive => "thread/unarchive",
        Stage::ListUnarchived => "thread/list unarchived",
        Stage::Exec => "command/exec",
        _ => "initialized",
        }
    }
}

// ---------------------------------------------------------------------------
// The state
// ---------------------------------------------------------------------------
/// A run of the scenario.
pub struct Scenario {
    pub cfg: ScenarioConfig,
    pub stage: Stage,
    /// Whether the response of the stage has come and its notifications are awaited.
    pub settling: bool,
    pub transcript: Transcript,
    pub ctx: SemanticContext,
    pub tool_prompt: String,
    pub process_id: String,
    /// Thread of earlier runs.
    pub cached: Option<String>,
    /// Thread that was attached to.
    pub attached: Option<String>,
    /// Notification that ended the last wait.
    pub ended_by: Option<String>,
}

/// The model of [`Scenario`].
#[verifier::ext_equal]
pub struct ScenarioV {
    pub target: TargetId,
    pub stage: Stage,
    pub settling: bool,
    pub frames: Seq<FrameV>,
    pub disposable: Option<Seq<char>>,
    pub ctx: ContextV,
    pub tool_prompt: Seq<char>,
    pub process_id: Seq<char>,
    pub cached: Option<Seq<char>>,
    pub attached: Option<Seq<char>>,
    pub ended_by: Option<Seq<char>>,
}

/// What came of an action.
pub enum Event {
    /// It is done.
    Done,
    /// It failed.
    Failed,
    /// The thread of earlier runs.
    Loaded(Option<String>),
    /// A response, with the notifications before it.
    Reply { response: Json, notifications: Vec<Json> },
    /// Notifications, with the one that ended the wait.
    Drained { notifications: Vec<Json>, ended_by: Option<String> },
}

/// What to do next.
pub enum Action {
    /// Send a request and wait for its response.
    Request { method: &'static str, params: Json, deadline_ms: u64 },
    /// Send a request, and go on.
    Send { method: &'static str, params: Json },
    /// Wait for the response to the request that was sent.
    Await { method: &'static str, deadline_ms: u64 },
    /// Send a notification.
    Notify(&'static str),
    /// Collect notifications until the line is quiet.
    DrainIdle { quiet_ms: u64 },
    /// Collect notifications until one of some methods.
    DrainUntil { stops: Vec<&'static str>, deadline_ms: u64 },
    /// Look up the thread of earlier runs.
    LoadThread,
    /// Forget the thread of earlier runs.
    ClearThread,
    /// Remember a thread for later runs.
    SaveThread(String),
    /// Wait.
    Sleep { ms: u64 },
    /// Archive a thread, see [`cleanup_request`]; it does not matter whether that works.
    Cleanup { thread_id: String },
    /// Nothing: the run is over.
    Stop { failed: bool },
}

/// The model of [`Action`].
pub enum ActionV {
    Request { method: Seq<char>, params: JsonV, deadline_ms: u64 },
    Send { method: Seq<char>, params: JsonV },
    Await { method: Seq<char>, deadline_ms: u64 },
    Notify(Seq<char>),
    DrainIdle { quiet_ms: u64 },
    DrainUntil { stops: Seq<&'static str>, deadline_ms: u64 },
    LoadThread,
    ClearThread,
    SaveThread(Seq<char>),
    Sleep { ms: u64 },
    Cleanup { thread_id: Seq<char> },
    Stop { failed: bool },
}

impl Action {
    /// The model of this action.
    pub open spec fn view(&self) -> ActionV {
        match *self {
            Action::Request { method, params, deadline_ms } => ActionV::Request {
                method: method@,
                params: params.view(),
                deadline_ms,
            },
            Action::Send { method, params } => ActionV::Send {
                method: method@,
                params: params.view(),
            },
            Action::Await { method, deadline_ms } => ActionV::Await {
                method: method@,
                deadline_ms,
            },
            Action::Notify(method) => ActionV::Notify(method@),
            Action::DrainIdle { quiet_ms } => ActionV::DrainIdle { quiet_ms },
            Action::DrainUntil { stops, deadline_ms } => ActionV::DrainUntil {
                stops: stops@,
                deadline_ms,
            },
            Action::LoadThread => ActionV::LoadThread,
            Action::ClearThread => ActionV::ClearThread,
            Action::SaveThread(id) => ActionV::SaveThread(id@),
            Action::Sleep { ms } => ActionV::Sleep { ms },
            Action::Cleanup { thread_id } => ActionV::Cleanup { thread_id: thread_id@ },
            Action::Stop { failed } => ActionV::Stop { failed },
        }
    }
}

/// A text, or the empty one.
pub open spec fn or_empty(s: Option<Seq<char>>) -> Seq<char> {
    match s {
        Some(t) => t,
        None => seq![],
    }
}

fn text_or_empty(s: &Option<String>) -> (r: &str)
    ensures
        r@ == or_empty(opt_text(*s)),
{
    match s {
        Some(t) => t.as_str(),
        None => {
            proof {
                reveal_strlit("");
                assert(""@ =~= seq![]);
            }
            ""
        },
    }
}

/// Parameters with the model to ask for.
pub open spec fn modelled(params: JsonV, cfg: ScenarioConfig) -> JsonV {
    match cfg.model {
        Some(m) => params.with("model"@, JsonV::Str(m@)),
        None => params,
    }
}

/// The parameters of the request of a stage.
pub open spec fn params_of(st: ScenarioV, cfg: ScenarioConfig) -> JsonV {
    match st.stage {
        Stage::Initialize => JsonV::object()
            .with(
                "clientInfo"@,
                JsonV::object()
                    .with("name"@, JsonV::Str(cfg.client_name@))
                    .with("version"@, JsonV::Str(cfg.client_version@)),
            )
            .with(
                "capabilities"@,
                JsonV::object().with("experimentalApi"@, JsonV::Bool(true)),
            ),
        Stage::ThreadList => JsonV::object()
            .with("archived"@, JsonV::Bool(false))
            .with("cwd"@, JsonV::Str(cfg.cwd@)),
        Stage::ResumeCached => JsonV::object()
            .with("threadId"@, JsonV::Str(or_empty(st.cached)))
            .with("cwd"@, JsonV::Str(cfg.cwd@))
            .with("approvalPolicy"@, JsonV::Str("never"@))
            .with("sandbox"@, JsonV::Str("danger-full-access"@)),
        Stage::StartThread => modelled(
            JsonV::object()
                .with("cwd"@, JsonV::Str(cfg.cwd@))
                .with("approvalPolicy"@, JsonV::Str("never"@))
                .with("sandbox"@, JsonV::Str("danger-full-access"@)),
            cfg,
        ),
        Stage::Turn => modelled(
            JsonV::object()
                .with("threadId"@, JsonV::Str(or_empty(st.ctx.thread_id)))
                .with(
                    "input"@,
                    JsonV::Arr(seq![JsonV::object()
                        .with("type"@, JsonV::Str("text"@))
                        .with("text"@, JsonV::Str(cfg.prompt@))]),
                )
                .with("approvalPolicy"@, JsonV::Str("never"@))
                .with("sandbox"@, JsonV::Str("danger-full-access"@)),
            cfg,
        ),
        Stage::ReadThread => JsonV::object()
            .with("threadId"@, JsonV::Str(or_empty(st.ctx.thread_id)))
            .with("includeTurns"@, JsonV::Bool(true)),
        Stage::ToolTurn => modelled(
            JsonV::object()
                .with("threadId"@, JsonV::Str(or_empty(st.ctx.thread_id)))
                .with(
                    "input"@,
                    JsonV::Arr(seq![JsonV::object()
                        .with("type"@, JsonV::Str("text"@))
                        .with("text"@, JsonV::Str(st.tool_prompt))]),
                )
                .with("approvalPolicy"@, JsonV::Str("never"@))
                .with("sandbox"@, JsonV::Str("danger-full-access"@)),
            cfg,
        ),
        Stage::ReadAfterTool => JsonV::object()
            .with("threadId"@, JsonV::Str(or_empty(st.ctx.thread_id)))
            .with("includeTurns"@, JsonV::Bool(true)),
        Stage::Resume => JsonV::object().with("threadId"@, JsonV::Str(or_empty(st.ctx.thread_id))),
        Stage::Rename => JsonV::object()
            .with("threadId"@, JsonV::Str(or_empty(st.ctx.thread_id)))
            .with("name"@, JsonV::Str("conformance"@)),
        Stage::StartDisposable => modelled(
            JsonV::object()
                .with("cwd"@, JsonV::Str(cfg.cwd@))
                .with("approvalPolicy"@, JsonV::Str("never"@))
                .with("sandbox"@, JsonV::Str("danger-full-access"@)),
            cfg,
        ),
        Stage::SeedTurn => modelled(
            JsonV::object()
                .with("threadId"@, JsonV::Str(or_empty(st.ctx.disposable_thread_id)))
                .with(
                    "input"@,
                    JsonV::Arr(seq![JsonV::object()
                        .with("type"@, JsonV::Str("text"@))
                        .with("text"@, JsonV::Str("Reply with exactly OK."@))]),
                )
                .with("approvalPolicy"@, JsonV::Str("never"@))
                .with("sandbox"@, JsonV::Str("danger-full-access"@)),
            cfg,
        ),
        Stage::ListDisposable => JsonV::object()
            .with("archived"@, JsonV::Bool(false))
            .with("cwd"@, JsonV::Str(cfg.cwd@)),
        Stage::Fork => modelled(
            JsonV::object()
                .with("threadId"@, JsonV::Str(or_empty(st.ctx.disposable_thread_id)))
                .with("cwd"@, JsonV::Str(cfg.cwd@))
                .with("approvalPolicy"@, JsonV::Str("never"@))
                .with("sandbox"@, JsonV::Str("danger-full-access"@)),
            cfg,
        ),
        Stage::Interruptible => modelled(
            JsonV::object()
                .with("threadId"@, JsonV::Str(or_empty(st.ctx.disposable_thread_id)))
                .with(
                    "input"@,
                    JsonV::Arr(seq![JsonV::object()
                        .with("type"@, JsonV::Str("text"@))
                        .with(
                            "text"@,
                            JsonV::Str(
                                "Count slowly from one to one hundred, one number per sentence. Keep going until interrupted."@,
                            ),
                        )]),
                )
                .with("approvalPolicy"@, JsonV::Str("never"@))
                .with("sandbox"@, JsonV::Str("danger-full-access"@)),
            cfg,
        ),
        Stage::Steer => modelled(
            JsonV::object()
                .with("threadId"@, JsonV::Str(or_empty(st.ctx.disposable_thread_id)))
                .with("expectedTurnId"@, JsonV::Str(or_empty(st.ctx.interrupted_turn_id)))
                .with(
                    "input"@,
                    JsonV::Arr(seq![JsonV::object()
                        .with("type"@, JsonV::Str("text"@))
                        .with("text"@, JsonV::Str("continue"@))]),
                ),
            cfg,
        ),
        Stage::Interrupt => JsonV::object()
            .with(
                "threadId"@,
                JsonV::Str(or_empty(st.ctx.disposable_thread_id)),
            )
            .with("turnId"@, JsonV::Str(or_empty(st.ctx.interrupted_turn_id))),
        Stage::TurnsList => JsonV::object()
            .with(
                "threadId"@,
                JsonV::Str(or_empty(st.ctx.disposable_thread_id)),
            )
            .with("limit"@, JsonV::Int(10)),
        Stage::LoadedList => JsonV::object(),
        Stage::ReadBeforeRollback => JsonV::object()
            .with(
                "threadId"@,
                JsonV::Str(or_empty(st.ctx.disposable_thread_id)),
            )
            .with("includeTurns"@, JsonV::Bool(true)),
        Stage::Rollback => JsonV::object()
            .with(
                "threadId"@,
                JsonV::Str(or_empty(st.ctx.disposable_thread_id)),
            )
            .with("numTurns"@, JsonV::Int(1)),
        Stage::Compact => modelled(
            JsonV::object().with("threadId"@, JsonV::Str(or_empty(st.ctx.disposable_thread_id))),
            cfg,
        ),
        Stage::ExecStart => JsonV::object()
            .with(
                "command"@,
                JsonV::Arr(seq![JsonV::Str("sh"@), JsonV::Str("-c"@), JsonV::Str("printf ready; sleep 5"@)]),
            )
            .with("processId"@, JsonV::Str(st.process_id))
            .with("tty"@, JsonV::Bool(true))
            .with("streamStdin"@, JsonV::Bool(true))
            .with("streamStdoutStderr"@, JsonV::Bool(true)),
        Stage::ExecWrite => JsonV::object()
            .with("processId"@, JsonV::Str(st.process_id))
            .with("deltaBase64"@, JsonV::Str("Cg=="@))
            .with("closeStdin"@, JsonV::Bool(false)),
        Stage::ExecResize => JsonV::object()
            .with("processId"@, JsonV::Str(st.process_id))
            .with(
                "size"@,
                JsonV::object().with("rows"@, JsonV::Int(24)).with("cols"@, JsonV::Int(80)),
            ),
        Stage::ExecTerminate => JsonV::object().with("processId"@, JsonV::Str(st.process_id)),
        Stage::Archive => JsonV::object()
            .with("threadId"@, JsonV::Str(or_empty(st.ctx.disposable_thread_id))),
        Stage::ListArchived => JsonV::object()
            .with("archived"@, JsonV::Bool(true))
            .with("cwd"@, JsonV::Str(cfg.cwd@)),
        Stage::Unarchive => JsonV::object()
            .with(
                "threadId"@,
                JsonV::Str(or_empty(st.ctx.disposable_thread_id)),
            ),
        Stage::ListUnarchived => JsonV::object()
            .with("archived"@, JsonV::Bool(false))
            .with("cwd"@, JsonV::Str(cfg.cwd@)),
        Stage::Exec => JsonV::object()
            .with(
                "command"@,
                JsonV::Arr(seq![JsonV::Str("sh"@), JsonV::Str("-c"@), JsonV::Str("printf hello"@)]),
            ),
        _ => JsonV::object(),
    }
}

fn command_line(script: &str) -> (r: Json)
    ensures
        r.view() == JsonV::Arr(seq![JsonV::Str("sh"@), JsonV::Str("-c"@), JsonV::Str(script@)]),
{
    let mut v: Vec<Json> = Vec::new();
    v.push(Json::text("sh"));
    v.push(Json::text("-c"));
    v.push(Json::text(script));
    assert(jsons(v@) =~= seq![JsonV::Str("sh"@), JsonV::Str("-c"@), JsonV::Str(script@)]);
    Json::array(v)
}

/// What to do in a state.
pub open spec fn action_of(st: ScenarioV, cfg: ScenarioConfig) -> ActionV {
    if st.settling {
        match tail_of(st.stage) {
            Tail::UntilDone => ActionV::DrainUntil {
                stops: UNTIL_DONE@,
                deadline_ms: cfg.turn_deadline_ms,
            },
            Tail::UntilDelta => ActionV::DrainUntil {
                stops: UNTIL_DELTA@,
                deadline_ms: cfg.turn_deadline_ms,
            },
            _ => ActionV::DrainIdle { quiet_ms: cfg.post_request_idle_ms },
        }
    } else {
        match st.stage {
            Stage::Initialized => ActionV::Notify("initialized"@),
            Stage::Load => ActionV::LoadThread,
            Stage::Clear => ActionV::ClearThread,
            Stage::Save => ActionV::SaveThread(or_empty(st.ctx.thread_id)),
            Stage::Pause => ActionV::Sleep { ms: PAUSE_MS },
            Stage::ExecStart => ActionV::Send {
                method: method_of(st.stage),
                params: params_of(st, cfg),
            },
            Stage::ExecStartup => ActionV::DrainUntil {
                stops: UNTIL_OUTPUT@,
                deadline_ms: STARTUP_MS,
            },
            Stage::ExecWait => ActionV::Await {
                method: method_of(st.stage),
                deadline_ms: cfg.default_deadline_ms,
            },
            Stage::Cleanup => ActionV::Cleanup { thread_id: or_empty(st.disposable) },
            Stage::Abandon => ActionV::Cleanup { thread_id: or_empty(st.disposable) },
            Stage::Finished => ActionV::Stop { failed: false },
            Stage::Failed => ActionV::Stop { failed: true },
            _ => ActionV::Request {
                method: method_of(st.stage),
                params: params_of(st, cfg),
                deadline_ms: if is_slow(st.stage) {
                    cfg.turn_deadline_ms
                } else {
                    cfg.default_deadline_ms
                },
            },
        }
    }
}

// ---------------------------------------------------------------------------
// What responses say
// ---------------------------------------------------------------------------
/// The id of the thread or the turn in a response.
pub open spec fn result_id(response: JsonV, what: Seq<char>) -> Option<Seq<char>> {
    match response.get2("result"@, what) {
        Some(t) => t.str_at("id"@),
        None => None,
    }
}

fn id_in(response: &Json, what: &str) -> (r: Option<String>)
    ensures
        opt_text(r) == result_id(response.view(), what@),
{
    match response.get2("result", what) {
        Some(t) => match t.str_at("id") {
            Some(s) => Some(owned(s)),
            None => None,
        },
        None => None,
    }
}

/// The id of the thread in a response.
pub fn extract_thread_id(response: &Json) -> (r: Option<String>)
    ensures
        opt_text(r) == result_id(response.view(), "thread"@),
{
    id_in(response, "thread")
}

/// The id of the turn in a response.
pub fn extract_turn_id(response: &Json) -> (r: Option<String>)
    ensures
        opt_text(r) == result_id(response.view(), "turn"@),
{
    id_in(response, "turn")
}

/// How many turns the thread in a response has.
pub open spec fn result_turns(response: JsonV) -> Option<nat> {
    match response.get2("result"@, "thread"@) {
        Some(t) => match t.array_at("turns"@) {
            Some(a) => Some(a.len()),
            None => None,
        },
        None => None,
    }
}

/// How many turns the thread in a response has.
pub fn count_thread_turns(response: &Json) -> (r: Option<usize>)
    ensures
        match r {
            Some(n) => result_turns(response.view()) == Some(n as nat),
            None => result_turns(response.view()) is None,
        },
{
    match response.get2("result", "thread") {
        Some(t) => match t.array_at("turns") {
            Some(a) => Some(a.len()),
            None => None,
        },
        None => None,
    }
}

/// Code and message of a response that is an error.
pub open spec fn error_in(response: JsonV) -> Option<(int, Seq<char>)> {
    match response.get("error"@) {
        Some(e) => Some(
            (
                match e.get("code"@) {
                    Some(c) => match c.as_i64() {
                        Some(i) => i,
                        None => 0,
                    },
                    None => 0,
                },
                match e.str_at("message"@) {
                    Some(m) => m,
                    None => "(no message)"@,
                },
            ),
        ),
        None => None,
    }
}

/// Code and message of a response that is an error.
pub fn frame_is_error(response: &Json) -> (r: Option<(i64, String)>)
    ensures
        match r {
            Some(e) => error_in(response.view()) == Some((e.0 as int, e.1@)),
            None => error_in(response.view()) is None,
        },
{
    match response.get("error") {
        Some(e) => {
            let code: i64 = match e.get("code") {
                Some(c) => match c.as_i64() {
                    Some(i) => i,
                    None => 0,
                },
                None => 0,
            };
            let message = match e.str_at("message") {
                Some(m) => owned(m),
                None => owned("(no message)"),
            };
            Some((code, message))
        },
        None => None,
    }
}

/// The method of a notification.
pub open spec fn note_method(v: JsonV) -> Seq<char> {
    match v.str_at("method"@) {
        Some(m) => m,
        None => "(missing)"@,
    }
}

/// Whether some notification has a method.
pub open spec fn has_note(s: Seq<JsonV>, method: Seq<char>) -> bool {
    exists|i: int| 0 <= i < s.len() && (#[trigger] s[i]).str_at("method"@) == Some(method)
}

/// The first method of a list of notifications that is on another list.
pub open spec fn first_stop(s: Seq<JsonV>, stops: Seq<&'static str>) -> Option<Seq<char>>
    decreases s.len(),
{
    if s.len() == 0 {
        None
    } else {
        match s[0].str_at("method"@) {
            Some(m) => if listed(stops, m) {
                Some(m)
            } else {
                first_stop(s.skip(1), stops)
            },
            None => first_stop(s.skip(1), stops),
        }
    }
}

/// What ended a wait before it began: a target may send everything before the
/// response. The end of the turn counts before anything else.
pub open spec fn prior_terminal(s: Seq<JsonV>, stops: Seq<&'static str>) -> Option<Seq<char>> {
    if listed(stops, "turn/completed"@) && has_note(s, "turn/completed"@) {
        Some("turn/completed"@)
    } else {
        first_stop(s, stops)
    }
}

/// What ended a wait before it began.
pub fn prior_terminal_method(prior: &Vec<Json>, stops: &[&'static str]) -> (r: Option<String>)
    ensures
        opt_text(r) == prior_terminal(jsons(prior@), stops@),
{
    let ghost s = jsons(prior@);
    if is_listed(stops, "turn/completed") {
        let mut i: usize = 0;
        while i < prior.len()
            invariant
                i <= prior@.len(),
                s == jsons(prior@),
                listed(stops@, "turn/completed"@),
                forall|k: int|
                    0 <= k < i ==> (#[trigger] s[k]).str_at("method"@) != Some("turn/completed"@),
            decreases prior@.len() - i,
        {
            assert(s[i as int] == prior@[i as int].view());
            if opt_same(prior[i].str_at("method"), "turn/completed") {
                assert(has_note(s, "turn/completed"@));
                return Some(owned("turn/completed"));
            }
            i += 1;
        }
        assert(!has_note(s, "turn/completed"@));
    }
    let mut i: usize = 0;
    assert(s.skip(0) =~= s);
    while i < prior.len()
        invariant
            i <= prior@.len(),
            s == jsons(prior@),
            !(listed(stops@, "turn/completed"@) && has_note(s, "turn/completed"@)),
            first_stop(s, stops@) == first_stop(s.skip(i as int), stops@),
        decreases prior@.len() - i,
    {
        assert(s[i as int] == prior@[i as int].view());
        assert(s.skip(i as int)[0] == s[i as int]);
        assert(s.skip(i as int).skip(1) =~= s.skip(i + 1));
        if let Some(m) = prior[i].str_at("method") {
            if is_listed(stops, m) {
                return Some(owned(m));
            }
        }
        i += 1;
    }
    assert(s.skip(i as int) =~= seq![]);
    None
}

// ---------------------------------------------------------------------------
// Steps of the machine
// ---------------------------------------------------------------------------
/// The frame of a notification in a step.
pub open spec fn note_frame(step: Seq<char>, v: JsonV) -> FrameV {
    FrameV { step, kind: FrameKind::Notification, method: note_method(v), raw: v }
}

/// The frames of some notifications in a step.
pub open spec fn note_frames(step: Seq<char>, s: Seq<JsonV>) -> Seq<FrameV> {
    s.map_values(|v: JsonV| note_frame(step, v))
}

/// What a response teaches in a stage.
pub open spec fn learned(st: ScenarioV, response: JsonV) -> ScenarioV {
    match st.stage {
        Stage::ResumeCached => ScenarioV { attached: st.cached, ..st },
        Stage::StartThread => ScenarioV { attached: result_id(response, "thread"@), ..st },
        Stage::StartDisposable => match result_id(response, "thread"@) {
            Some(id) => ScenarioV {
                disposable: Some(id),
                ctx: ContextV { disposable_thread_id: Some(id), ..st.ctx },
                ..st
            },
            None => st,
        },
        Stage::Fork => ScenarioV {
            ctx: ContextV { forked_thread_id: result_id(response, "thread"@), ..st.ctx },
            ..st
        },
        Stage::Interruptible => ScenarioV {
            ctx: ContextV { interrupted_turn_id: result_id(response, "turn"@), ..st.ctx },
            ..st
        },
        Stage::ReadBeforeRollback => ScenarioV {
            ctx: ContextV {
                rollback_before_turns: match result_turns(response) {
                    Some(n) => Some(n as usize),
                    None => None,
                },
                ..st.ctx
            },
            ..st
        },
        _ => st,
    }
}

/// The stage after an attached thread.
pub open spec fn after_attach(st: ScenarioV, cfg: ScenarioConfig) -> ScenarioV {
    match st.attached {
        Some(id) => ScenarioV {
            ctx: ContextV { thread_id: Some(id), ..st.ctx },
            stage: if cfg.reuse_thread_cache && st.cached != Some(id) {
                Stage::Save
            } else {
                Stage::Turn
            },
            ..st
        },
        None => ScenarioV { stage: Stage::Finished, ..st },
    }
}

/// The stage that follows.
pub open spec fn next_stage(st: ScenarioV, cfg: ScenarioConfig) -> Stage {
    match st.stage {
        Stage::Initialize => Stage::Initialized,
        Stage::Initialized => Stage::ReadOnly(0),
        Stage::ReadOnly(i) => if i < 6 {
            Stage::ReadOnly((i + 1) as usize)
        } else {
            Stage::ThreadList
        },
        Stage::ThreadList => if cfg.reuse_thread_cache {
            Stage::Load
        } else {
            Stage::StartThread
        },
        Stage::Load => if st.cached is Some {
            Stage::ResumeCached
        } else {
            Stage::StartThread
        },
        Stage::Clear => Stage::StartThread,
        Stage::Save => Stage::Turn,
        Stage::Turn => Stage::ReadThread,
        Stage::ReadThread => Stage::ToolTurn,
        Stage::ToolTurn => Stage::ReadAfterTool,
        Stage::ReadAfterTool => Stage::Resume,
        Stage::Resume => Stage::Rename,
        Stage::Rename => if cfg.exercise_mutations {
            Stage::StartDisposable
        } else {
            Stage::Exec
        },
        Stage::StartDisposable => if st.disposable is Some {
            Stage::SeedTurn
        } else {
            Stage::Exec
        },
        Stage::SeedTurn => Stage::ListDisposable,
        Stage::ListDisposable => Stage::Fork,
        Stage::Fork => Stage::Interruptible,
        Stage::Interruptible => if st.ended_by == Some("item/agentMessage/delta"@) {
            Stage::Pause
        } else {
            Stage::TurnsList
        },
        Stage::Pause => if st.ctx.interrupted_turn_id is Some {
            Stage::Steer
        } else {
            Stage::TurnsList
        },
        Stage::Steer => Stage::Interrupt,
        Stage::Interrupt => Stage::TurnsList,
        Stage::TurnsList => Stage::LoadedList,
        Stage::LoadedList => Stage::ReadBeforeRollback,
        Stage::ReadBeforeRollback => Stage::Rollback,
        Stage::Rollback => Stage::Compact,
        Stage::Compact => Stage::ExecStart,
        Stage::ExecStart => Stage::ExecStartup,
        Stage::ExecStartup => Stage::ExecWrite,
        Stage::ExecWrite => Stage::ExecResize,
        Stage::ExecResize => Stage::ExecTerminate,
        Stage::ExecTerminate => Stage::ExecWait,
        Stage::ExecWait => Stage::Archive,
        Stage::Archive => Stage::ListArchived,
        Stage::ListArchived => Stage::Unarchive,
        Stage::Unarchive => Stage::ListUnarchived,
        Stage::ListUnarchived => Stage::Cleanup,
        Stage::Cleanup => Stage::Exec,
        Stage::Exec => Stage::Finished,
        Stage::Abandon => Stage::Failed,
        other => other,
    }
}

/// The state after the stage is through.
pub open spec fn moved_on(st: ScenarioV, cfg: ScenarioConfig) -> ScenarioV {
    let t = ScenarioV { settling: false, ..st };
    match t.stage {
        Stage::ResumeCached => after_attach(t, cfg),
        Stage::StartThread => after_attach(t, cfg),
        Stage::ExecStart => ScenarioV {
            ctx: ContextV { streaming_process_id: Some(t.process_id), ..t.ctx },
            stage: next_stage(t, cfg),
            ..t
        },
        _ => ScenarioV { stage: next_stage(t, cfg), ..t },
    }
}

/// Whether a stage works on the thread that may be spoilt.
pub open spec fn is_mutation(stage: Stage) -> bool {
    match stage {
        Stage::StartDisposable => true,
        Stage::SeedTurn => true,
        Stage::ListDisposable => true,
        Stage::Fork => true,
        Stage::Interruptible => true,
        Stage::Pause => true,
        Stage::Steer => true,
        Stage::Interrupt => true,
        Stage::TurnsList => true,
        Stage::LoadedList => true,
        Stage::ReadBeforeRollback => true,
        Stage::Rollback => true,
        Stage::Compact => true,
        Stage::ExecStart => true,
        Stage::ExecStartup => true,
        Stage::ExecWrite => true,
        Stage::ExecResize => true,
        Stage::ExecTerminate => true,
        Stage::ExecWait => true,
        Stage::Archive => true,
        Stage::ListArchived => true,
        Stage::Unarchive => true,
        Stage::ListUnarchived => true,
        Stage::Cleanup => true,
        _ => false,
    }
}

/// The state after a failure. The thread of earlier runs may be gone; any other
/// failure ends the run, once the thread that may be spoilt is archived.
pub open spec fn after_failure(st: ScenarioV) -> ScenarioV {
    ScenarioV {
        settling: false,
        stage: if st.stage == Stage::ResumeCached && !st.settling {
            Stage::Clear
        } else if is_mutation(st.stage) && st.disposable is Some {
            Stage::Abandon
        } else {
            Stage::Failed
        },
        ..st
    }
}

/// Whether a stage waits for a response.
pub open spec fn expects_reply(stage: Stage) -> bool {
    match stage {
        Stage::Initialized => false,
        Stage::Load => false,
        Stage::Clear => false,
        Stage::Save => false,
        Stage::Pause => false,
        Stage::ExecStart => false,
        Stage::ExecStartup => false,
        Stage::Cleanup => false,
        Stage::Abandon => false,
        Stage::Finished => false,
        Stage::Failed => false,
        _ => true,
    }
}

/// The state after a response.
pub open spec fn after_reply(
    st: ScenarioV,
    cfg: ScenarioConfig,
    response: JsonV,
    notes: Seq<JsonV>,
) -> ScenarioV {
    if st.stage == Stage::ResumeCached && error_in(response) is Some {
        ScenarioV { stage: Stage::Clear, ..st }
    } else {
        let step = step_of(st.stage);
        let frame = FrameV {
            step,
            kind: FrameKind::Response,
            method: method_of(st.stage),
            raw: response,
        };
        let t = learned(
            ScenarioV { frames: st.frames.push(frame) + note_frames(step, notes), ..st },
            response,
        );
        match tail_of(st.stage) {
            Tail::Nothing => moved_on(t, cfg),
            Tail::Idle => ScenarioV { settling: true, ..t },
            Tail::UntilDone => match prior_terminal(notes, UNTIL_DONE@) {
                Some(m) => moved_on(ScenarioV { ended_by: Some(m), ..t }, cfg),
                None => ScenarioV { settling: true, ..t },
            },
            Tail::UntilDelta => match prior_terminal(notes, UNTIL_DELTA@) {
                Some(m) => moved_on(ScenarioV { ended_by: Some(m), ..t }, cfg),
                None => ScenarioV { settling: true, ..t },
            },
        }
    }
}

/// The state after a wait.
pub open spec fn after_drain(
    st: ScenarioV,
    cfg: ScenarioConfig,
    notes: Seq<JsonV>,
    ended_by: Option<Seq<char>>,
) -> ScenarioV {
    moved_on(
        ScenarioV {
            frames: st.frames + note_frames(step_of(st.stage), notes),
            ended_by,
            ..st
        },
        cfg,
    )
}

/// The state after an event. An event that the stage does not wait for changes
/// nothing.
pub open spec fn advanced(st: ScenarioV, cfg: ScenarioConfig, e: Event) -> ScenarioV {
    match e {
        Event::Failed => if st.stage == Stage::Finished || st.stage == Stage::Failed {
            st
        } else {
            after_failure(st)
        },
        Event::Loaded(id) => if st.stage == Stage::Load {
            moved_on(ScenarioV { cached: opt_text(id), ..st }, cfg)
        } else {
            st
        },
        Event::Reply { response, notifications } => if expects_reply(st.stage) && !st.settling {
            after_reply(st, cfg, response.view(), jsons(notifications@))
        } else {
            st
        },
        Event::Drained { notifications, ended_by } => if st.settling || st.stage
            == Stage::ExecStartup {
            after_drain(st, cfg, jsons(notifications@), opt_text(ended_by))
        } else {
            st
        },
        Event::Done => if expects_reply(st.stage) || st.stage == Stage::Load || st.stage
            == Stage::ExecStartup {
            st
        } else {
            moved_on(st, cfg)
        },
    }
}

/// How far a stage is from the beginning.
pub open spec fn rank(stage: Stage) -> int {
    match stage {
        Stage::Initialize => 0,
        Stage::Initialized => 2,
        Stage::ReadOnly(i) => 4 + 2 * i as int,
        Stage::ThreadList => 18,
        Stage::Load => 20,
        Stage::ResumeCached => 22,
        Stage::Clear => 24,
        Stage::StartThread => 26,
        Stage::Save => 28,
        Stage::Turn => 30,
        Stage::ReadThread => 32,
        Stage::ToolTurn => 34,
        Stage::ReadAfterTool => 36,
        Stage::Resume => 38,
        Stage::Rename => 40,
        Stage::StartDisposable => 42,
        Stage::SeedTurn => 44,
        Stage::ListDisposable => 46,
        Stage::Fork => 48,
        Stage::Interruptible => 50,
        Stage::Pause => 52,
        Stage::Steer => 54,
        Stage::Interrupt => 56,
        Stage::TurnsList => 58,
        Stage::LoadedList => 60,
        Stage::ReadBeforeRollback => 62,
        Stage::Rollback => 64,
        Stage::Compact => 66,
        Stage::ExecStart => 68,
        Stage::ExecStartup => 70,
        Stage::ExecWrite => 72,
        Stage::ExecResize => 74,
        Stage::ExecTerminate => 76,
        Stage::ExecWait => 78,
        Stage::Archive => 80,
        Stage::ListArchived => 82,
        Stage::Unarchive => 84,
        Stage::ListUnarchived => 86,
        Stage::Cleanup => 88,
        Stage::Exec => 90,
        Stage::Abandon => 92,
        Stage::Finished => 94,
        Stage::Failed => 96,
    }
}

impl Scenario {
    /// The model of this run.
    pub open spec fn view(&self) -> ScenarioV {
        ScenarioV {
            target: self.transcript.target,
            stage: self.stage,
            settling: self.settling,
            frames: frames(self.transcript.frames@),
            disposable: opt_text(self.transcript.disposable_thread_id),
            ctx: self.ctx.view(),
            tool_prompt: self.tool_prompt@,
            process_id: self.process_id@,
            cached: opt_text(self.cached),
            attached: opt_text(self.attached),
            ended_by: opt_text(self.ended_by),
        }
    }

    /// A run that has not begun. `marker` is a token that nothing else knows,
    /// `marker_path` the file that holds it, and `process_id` names the command whose
    /// output is streamed.
    pub fn new(
        cfg: ScenarioConfig,
        target: TargetId,
        marker: String,
        marker_path: &str,
        process_id: String,
    ) -> (r: Scenario)
        ensures
            r.cfg == cfg,
            r.view() == (ScenarioV {
                target,
                stage: Stage::Initialize,
                settling: false,
                frames: seq![],
                disposable: None,
                ctx: fresh_context(marker@, cfg.prompt@),
                tool_prompt: if cfg.tool_prompt@.len() == 0 {
                    tool_prompt_for(marker_path@)
                } else {
                    cfg.tool_prompt@
                },
                process_id: process_id@,
                cached: None,
                attached: None,
                ended_by: None,
            }),
    {
        let tool_prompt = if cfg.tool_prompt.as_str().is_empty() {
            make_tool_prompt(marker_path)
        } else {
            cfg.tool_prompt.clone()
        };
        let ctx = SemanticContext::new(marker, cfg.prompt.clone());
        Scenario {
            cfg,
            stage: Stage::Initialize,
            settling: false,
            transcript: Transcript::new(target),
            ctx,
            tool_prompt,
            process_id,
            cached: None,
            attached: None,
            ended_by: None,
        }
    }

    fn with_model(&self, params: Json) -> (r: Json)
        ensures
            r.view() == modelled(params.view(), self.cfg),
    {
        match &self.cfg.model {
            Some(m) => params.with("model", Json::text(m.as_str())),
            None => params,
        }
    }

    fn params(&self) -> (r: Json)
        ensures
            r.view() == params_of(self.view(), self.cfg),
    {
        match self.stage {
            Stage::Initialize => Json::object()
                .with(
                    "clientInfo",
                    Json::object()
                        .with("name", Json::text(self.cfg.client_name.as_str()))
                        .with("version", Json::text(self.cfg.client_version.as_str())),
                )
                .with(
                    "capabilities",
                    Json::object().with("experimentalApi", Json::Bool(true)),
                ),
            Stage::ThreadList => Json::object()
                .with("archived", Json::Bool(false))
                .with("cwd", Json::text(self.cfg.cwd.as_str())),
            Stage::ResumeCached => Json::object()
                .with("threadId", Json::text(text_or_empty(&self.cached)))
                .with("cwd", Json::text(self.cfg.cwd.as_str()))
                .with("approvalPolicy", Json::text("never"))
                .with("sandbox", Json::text("danger-full-access")),
            Stage::StartThread => self.with_model(
                Json::object()
                    .with("cwd", Json::text(self.cfg.cwd.as_str()))
                    .with("approvalPolicy", Json::text("never"))
                    .with("sandbox", Json::text("danger-full-access")),
            ),
            Stage::Turn => self.with_model(
                Json::object()
                    .with("threadId", Json::text(text_or_empty(&self.ctx.thread_id)))
                    .with(
                        "input",
                        Json::array1(
                            Json::object()
                                .with("type", Json::text("text"))
                                .with("text", Json::text(self.cfg.prompt.as_str())),
                        ),
                    )
                    .with("approvalPolicy", Json::text("never"))
                    .with("sandbox", Json::text("danger-full-access")),
            ),
            Stage::ReadThread => Json::object()
                .with(
                    "threadId",
                    Json::text(text_or_empty(&self.ctx.thread_id)),
                )
                .with("includeTurns", Json::Bool(true)),
            Stage::ToolTurn => self.with_model(
                Json::object()
                    .with("threadId", Json::text(text_or_empty(&self.ctx.thread_id)))
                    .with(
                        "input",
                        Json::array1(
                            Json::object()
                                .with("type", Json::text("text"))
                                .with("text", Json::text(self.tool_prompt.as_str())),
                        ),
                    )
                    .with("approvalPolicy", Json::text("never"))
                    .with("sandbox", Json::text("danger-full-access")),
            ),
            Stage::ReadAfterTool => Json::object()
                .with(
                    "threadId",
                    Json::text(text_or_empty(&self.ctx.thread_id)),
                )
                .with("includeTurns", Json::Bool(true)),
            Stage::Resume => Json::object()
                .with("threadId", Json::text(text_or_empty(&self.ctx.thread_id))),
            Stage::Rename => Json::object()
                .with("threadId", Json::text(text_or_empty(&self.ctx.thread_id)))
                .with("name", Json::text("conformance")),
            Stage::StartDisposable => self.with_model(
                Json::object()
                    .with("cwd", Json::text(self.cfg.cwd.as_str()))
                    .with("approvalPolicy", Json::text("never"))
                    .with("sandbox", Json::text("danger-full-access")),
            ),
            Stage::SeedTurn => self.with_model(
                Json::object()
                    .with("threadId", Json::text(text_or_empty(&self.ctx.disposable_thread_id)))
                    .with(
                        "input",
                        Json::array1(
                            Json::object()
                                .with("type", Json::text("text"))
                                .with("text", Json::text("Reply with exactly OK.")),
                        ),
                    )
                    .with("approvalPolicy", Json::text("never"))
                    .with("sandbox", Json::text("danger-full-access")),
            ),
            Stage::ListDisposable => Json::object()
                .with("archived", Json::Bool(false))
                .with("cwd", Json::text(self.cfg.cwd.as_str())),
            Stage::Fork => self.with_model(
                Json::object()
                    .with("threadId", Json::text(text_or_empty(&self.ctx.disposable_thread_id)))
                    .with("cwd", Json::text(self.cfg.cwd.as_str()))
                    .with("approvalPolicy", Json::text("never"))
                    .with("sandbox", Json::text("danger-full-access")),
            ),
            Stage::Interruptible => self.with_model(
                Json::object()
                    .with("threadId", Json::text(text_or_empty(&self.ctx.disposable_thread_id)))
                    .with(
                        "input",
                        Json::array1(
                            Json::object()
                                .with("type", Json::text("text"))
                                .with(
                                    "text",
                                    Json::text(
                                        "Count slowly from one to one hundred, one number per sentence. Keep going until interrupted.",
                                    ),
                                ),
                        ),
                    )
                    .with("approvalPolicy", Json::text("never"))
                    .with("sandbox", Json::text("danger-full-access")),
            ),
            Stage::Steer => self.with_model(
                Json::object()
                    .with("threadId", Json::text(text_or_empty(&self.ctx.disposable_thread_id)))
                    .with(
                        "expectedTurnId",
                        Json::text(text_or_empty(&self.ctx.interrupted_turn_id)),
                    )
                    .with(
                        "input",
                        Json::array1(
                            Json::object()
                                .with("type", Json::text("text"))
                                .with("text", Json::text("continue")),
                        ),
                    ),
            ),
            Stage::Interrupt => Json::object()
                .with(
                    "threadId",
                    Json::text(text_or_empty(&self.ctx.disposable_thread_id)),
                )
                .with(
                    "turnId",
                    Json::text(text_or_empty(&self.ctx.interrupted_turn_id)),
                ),
            Stage::TurnsList => Json::object()
                .with(
                    "threadId",
                    Json::text(text_or_empty(&self.ctx.disposable_thread_id)),
                )
                .with("limit", Json::Int(10)),
            Stage::LoadedList => Json::object(),
            Stage::ReadBeforeRollback => Json::object()
                .with(
                    "threadId",
                    Json::text(text_or_empty(&self.ctx.disposable_thread_id)),
                )
                .with("includeTurns", Json::Bool(true)),
            Stage::Rollback => Json::object()
                .with(
                    "threadId",
                    Json::text(text_or_empty(&self.ctx.disposable_thread_id)),
                )
                .with("numTurns", Json::Int(1)),
            Stage::Compact => self.with_model(
                Json::object()
                    .with("threadId", Json::text(text_or_empty(&self.ctx.disposable_thread_id))),
            ),
            Stage::ExecStart => Json::object()
                .with("command", command_line("printf ready; sleep 5"))
                .with("processId", Json::text(self.process_id.as_str()))
                .with("tty", Json::Bool(true))
                .with("streamStdin", Json::Bool(true))
                .with("streamStdoutStderr", Json::Bool(true)),
            Stage::ExecWrite => Json::object()
                .with("processId", Json::text(self.process_id.as_str()))
                .with("deltaBase64", Json::text("Cg=="))
                .with("closeStdin", Json::Bool(false)),
            Stage::ExecResize => Json::object()
                .with("processId", Json::text(self.process_id.as_str()))
                .with(
                    "size",
                    Json::object().with("rows", Json::Int(24)).with("cols", Json::Int(80)),
                ),
            Stage::ExecTerminate => Json::object()
                .with("processId", Json::text(self.process_id.as_str())),
            Stage::Archive => Json::object()
                .with(
                    "threadId",
                    Json::text(text_or_empty(&self.ctx.disposable_thread_id)),
                ),
            Stage::ListArchived => Json::object()
                .with("archived", Json::Bool(true))
                .with("cwd", Json::text(self.cfg.cwd.as_str())),
            Stage::Unarchive => Json::object()
                .with(
                    "threadId",
                    Json::text(text_or_empty(&self.ctx.disposable_thread_id)),
                ),
            Stage::ListUnarchived => Json::object()
                .with("archived", Json::Bool(false))
                .with("cwd", Json::text(self.cfg.cwd.as_str())),
            Stage::Exec => Json::object().with("command", command_line("printf hello")),
            _ => Json::object(),
        }
    }

    /// What to do next.
    pub fn action(&self) -> (r: Action)
        ensures
            r.view() == action_of(self.view(), self.cfg),
    {
        if self.settling {
            return match self.stage.tail() {
                Tail::UntilDone => Action::DrainUntil {
                    stops: until_done(),
                    deadline_ms: self.cfg.turn_deadline_ms,
                },
                Tail::UntilDelta => Action::DrainUntil {
                    stops: until_delta(),
                    deadline_ms: self.cfg.turn_deadline_ms,
                },
                _ => Action::DrainIdle { quiet_ms: self.cfg.post_request_idle_ms },
            };
        }
        match self.stage {
            Stage::Initialized => Action::Notify("initialized"),
            Stage::Load => Action::LoadThread,
            Stage::Clear => Action::ClearThread,
            Stage::Save => Action::SaveThread(owned(text_or_empty(&self.ctx.thread_id))),
            Stage::Pause => Action::Sleep { ms: PAUSE_MS },
            Stage::ExecStart => Action::Send { method: self.stage.method(), params: self.params() },
            Stage::ExecStartup => Action::DrainUntil {
                stops: until_output(),
                deadline_ms: STARTUP_MS,
            },
            Stage::ExecWait => Action::Await {
                method: self.stage.method(),
                deadline_ms: self.cfg.default_deadline_ms,
            },
            Stage::Cleanup => Action::Cleanup {
                thread_id: owned(text_or_empty(&self.transcript.disposable_thread_id)),
            },
            Stage::Abandon => Action::Cleanup {
                thread_id: owned(text_or_empty(&self.transcript.disposable_thread_id)),
            },
            Stage::Finished => Action::Stop { failed: false },
            Stage::Failed => Action::Stop { failed: true },
            _ => Action::Request {
                method: self.stage.method(),
                params: self.params(),
                deadline_ms: if self.stage.slow() {
                    self.cfg.turn_deadline_ms
                } else {
                    self.cfg.default_deadline_ms
                },
            },
        }
    }

    fn push_response(&mut self, response: Json)
        ensures
            final(self).view() == (ScenarioV {
                frames: old(self).view().frames.push(
                    FrameV {
                        step: step_of(old(self).stage),
                        kind: FrameKind::Response,
                        method: method_of(old(self).stage),
                        raw: response.view(),
                    },
                ),
                ..old(self).view()
            }),
            final(self).cfg == old(self).cfg,
    {
        let f = Frame {
            step: owned(self.stage.step()),
            kind: FrameKind::Response,
            method: owned(self.stage.method()),
            raw: response,
        };
        self.transcript.push(f);
    }

    fn push_notifications(&mut self, notes: Vec<Json>)
        ensures
            final(self).view() == (ScenarioV {
                frames: old(self).view().frames + note_frames(
                    step_of(old(self).stage),
                    jsons(notes@),
                ),
                ..old(self).view()
            }),
            final(self).cfg == old(self).cfg,
    {
        let step = self.stage.step();
        let ghost all = jsons(notes@);
        let ghost raw = notes@;
        let ghost start = self.view().frames;
        assert(start + note_frames(step@, all.take(0)) =~= start);
        for v in it: notes
            invariant
                it.seq() == raw,
                all == jsons(raw),
                step@ == step_of(old(self).stage),
                start == old(self).view().frames,
                self.cfg == old(self).cfg,
                self.view() == (ScenarioV {
                    frames: start + note_frames(step@, all.take(it.index() as int)),
                    ..old(self).view()
                }),
        {
            let ghost k = it.index() as int;
            assert(all[k] == v.view());
            let method = match v.str_at("method") {
                Some(m) => owned(m),
                None => owned("(missing)"),
            };
            proof {
                assert(all.take(k + 1) =~= all.take(k).push(v.view()));
                assert(note_frames(step@, all.take(k + 1)) =~= note_frames(
                    step@,
                    all.take(k),
                ).push(note_frame(step@, v.view())));
            }
            self.transcript.push(
                Frame { step: owned(step), kind: FrameKind::Notification, method, raw: v },
            );
            assert(self.view().frames =~= start + note_frames(step@, all.take(k + 1)));
        }
        assert(all.take(raw.len() as int) =~= all);
    }

    fn learn(&mut self, response: &Json)
        ensures
            final(self).view() == learned(old(self).view(), response.view()),
            final(self).cfg == old(self).cfg,
    {
        match self.stage {
            Stage::ResumeCached => {
                self.attached = crate::text::opt_copy(&self.cached);
            },
            Stage::StartThread => {
                self.attached = extract_thread_id(response);
            },
            Stage::StartDisposable => {
                if let Some(id) = extract_thread_id(response) {
                    self.transcript.disposable_thread_id = Some(id.clone());
                    self.ctx.disposable_thread_id = Some(id);
                }
            },
            Stage::Fork => {
                self.ctx.forked_thread_id = extract_thread_id(response);
            },
            Stage::Interruptible => {
                self.ctx.interrupted_turn_id = extract_turn_id(response);
            },
            Stage::ReadBeforeRollback => {
                self.ctx.rollback_before_turns = count_thread_turns(response);
            },
            _ => {},
        }
    }

    fn attach(&mut self)
        ensures
            final(self).view() == after_attach(old(self).view(), old(self).cfg),
            final(self).cfg == old(self).cfg,
    {
        match crate::text::opt_copy(&self.attached) {
            Some(id) => {
                let known = match &self.cached {
                    Some(c) => same(c.as_str(), id.as_str()),
                    None => false,
                };
                self.ctx.thread_id = Some(id);
                self.stage = if self.cfg.reuse_thread_cache && !known {
                    Stage::Save
                } else {
                    Stage::Turn
                };
            },
            None => {
                self.stage = Stage::Finished;
            },
        }
    }

    fn following(&self) -> (r: Stage)
        ensures
            r == next_stage(self.view(), self.cfg),
    {
        match self.stage {
            Stage::Initialize => Stage::Initialized,
            Stage::Initialized => Stage::ReadOnly(0),
            Stage::ReadOnly(i) => if i < 6 {
                Stage::ReadOnly(i + 1)
            } else {
                Stage::ThreadList
            },
            Stage::ThreadList => if self.cfg.reuse_thread_cache {
                Stage::Load
            } else {
                Stage::StartThread
            },
            Stage::Load => if self.cached.is_some() {
                Stage::ResumeCached
            } else {
                Stage::StartThread
            },
            Stage::Clear => Stage::StartThread,
            Stage::Save => Stage::Turn,
            Stage::Turn => Stage::ReadThread,
            Stage::ReadThread => Stage::ToolTurn,
            Stage::ToolTurn => Stage::ReadAfterTool,
            Stage::ReadAfterTool => Stage::Resume,
            Stage::Resume => Stage::Rename,
            Stage::Rename => if self.cfg.exercise_mutations {
                Stage::StartDisposable
            } else {
                Stage::Exec
            },
            Stage::StartDisposable => if self.transcript.disposable_thread_id.is_some() {
                Stage::SeedTurn
            } else {
                Stage::Exec
            },
            Stage::SeedTurn => Stage::ListDisposable,
            Stage::ListDisposable => Stage::Fork,
            Stage::Fork => Stage::Interruptible,
            Stage::Interruptible => {
                let replying = match &self.ended_by {
                    Some(m) => same(m.as_str(), "item/agentMessage/delta"),
                    None => false,
                };
                if replying {
                    Stage::Pause
                } else {
                    Stage::TurnsList
                }
            },
            Stage::Pause => if self.ctx.interrupted_turn_id.is_some() {
                Stage::Steer
            } else {
                Stage::TurnsList
            },
            Stage::Steer => Stage::Interrupt,
            Stage::Interrupt => Stage::TurnsList,
            Stage::TurnsList => Stage::LoadedList,
            Stage::LoadedList => Stage::ReadBeforeRollback,
            Stage::ReadBeforeRollback => Stage::Rollback,
            Stage::Rollback => Stage::Compact,
            Stage::Compact => Stage::ExecStart,
            Stage::ExecStart => Stage::ExecStartup,
            Stage::ExecStartup => Stage::ExecWrite,
            Stage::ExecWrite => Stage::ExecResize,
            Stage::ExecResize => Stage::ExecTerminate,
            Stage::ExecTerminate => Stage::ExecWait,
            Stage::ExecWait => Stage::Archive,
            Stage::Archive => Stage::ListArchived,
            Stage::ListArchived => Stage::Unarchive,
            Stage::Unarchive => Stage::ListUnarchived,
            Stage::ListUnarchived => Stage::Cleanup,
            Stage::Cleanup => Stage::Exec,
            Stage::Exec => Stage::Finished,
            Stage::Abandon => Stage::Failed,
            other => other,
        }
    }

    fn move_on(&mut self)
        ensures
            final(self).view() == moved_on(old(self).view(), old(self).cfg),
            final(self).cfg == old(self).cfg,
    {
        self.settling = false;
        match self.stage {
            Stage::ResumeCached => self.attach(),
            Stage::StartThread => self.attach(),
            Stage::ExecStart => {
                self.ctx.streaming_process_id = Some(self.process_id.clone());
                self.stage = self.following();
            },
            _ => {
                self.stage = self.following();
            },
        }
    }

    fn fail(&mut self)
        ensures
            final(self).view() == after_failure(old(self).view()),
            final(self).cfg == old(self).cfg,
    {
        let mutation = match self.stage {
            Stage::StartDisposable => true,
            Stage::SeedTurn => true,
            Stage::ListDisposable => true,
            Stage::Fork => true,
            Stage::Interruptible => true,
            Stage::Pause => true,
            Stage::Steer => true,
            Stage::Interrupt => true,
            Stage::TurnsList => true,
            Stage::LoadedList => true,
            Stage::ReadBeforeRollback => true,
            Stage::Rollback => true,
            Stage::Compact => true,
            Stage::ExecStart => true,
            Stage::ExecStartup => true,
            Stage::ExecWrite => true,
            Stage::ExecResize => true,
            Stage::ExecTerminate => true,
            Stage::ExecWait => true,
            Stage::Archive => true,
            Stage::ListArchived => true,
            Stage::Unarchive => true,
            Stage::ListUnarchived => true,
            Stage::Cleanup => true,
            _ => false,
        };
        let resuming = self.stage == Stage::ResumeCached && !self.settling;
        self.settling = false;
        self.stage = if resuming {
            Stage::Clear
        } else if mutation && self.transcript.disposable_thread_id.is_some() {
            Stage::Abandon
        } else {
            Stage::Failed
        };
    }

    fn on_reply(&mut self, response: Json, notifications: Vec<Json>)
        ensures
            final(self).view() == after_reply(
                old(self).view(),
                old(self).cfg,
                response.view(),
                jsons(notifications@),
            ),
            final(self).cfg == old(self).cfg,
    {
        if self.stage == Stage::ResumeCached && frame_is_error(&response).is_some() {
            self.stage = Stage::Clear;
            return;
        }
        let tail = self.stage.tail();
        let prior = match tail {
            Tail::UntilDone => prior_terminal_method(
                &notifications,
                until_done().as_slice(),
            ),
            Tail::UntilDelta => prior_terminal_method(
                &notifications,
                until_delta().as_slice(),
            ),
            _ => None,
        };
        let copy = response.copy();
        self.push_response(response);
        self.push_notifications(notifications);
        self.learn(&copy);
        match tail {
            Tail::Nothing => {
                self.move_on();
            },
            Tail::Idle => {
                self.settling = true;
            },
            Tail::UntilDone => {
                if prior.is_some() {
                    self.ended_by = prior;
                    self.move_on();
                } else {
                    self.settling = true;
                }
            },
            Tail::UntilDelta => {
                if prior.is_some() {
                    self.ended_by = prior;
                    self.move_on();
                } else {
                    self.settling = true;
                }
            },
        }
    }

    /// Takes note of what came of the action.
    pub fn advance(&mut self, e: Event)
        ensures
            final(self).view() == advanced(old(self).view(), old(self).cfg, e),
            final(self).cfg == old(self).cfg,
    {
        match e {
            Event::Failed => {
                if self.stage != Stage::Finished && self.stage != Stage::Failed {
                    self.fail();
                }
            },
            Event::Loaded(id) => {
                if self.stage == Stage::Load {
                    self.cached = id;
                    self.move_on();
                }
            },
            Event::Reply { response, notifications } => {
                if self.awaits_reply() && !self.settling {
                    self.on_reply(response, notifications);
                }
            },
            Event::Drained { notifications, ended_by } => {
                if self.settling || self.stage == Stage::ExecStartup {
                    self.push_notifications(notifications);
                    self.ended_by = ended_by;
                    self.move_on();
                }
            },
            Event::Done => {
                if !self.awaits_reply() && self.stage != Stage::Load && self.stage
                    != Stage::ExecStartup {
                    self.move_on();
                }
            },
        }
    }

    fn awaits_reply(&self) -> (r: bool)
        ensures
            r == expects_reply(self.stage),
    {
        match self.stage {
            Stage::Initialized => false,
            Stage::Load => false,
            Stage::Clear => false,
            Stage::Save => false,
            Stage::Pause => false,
            Stage::ExecStart => false,
            Stage::ExecStartup => false,
            Stage::Cleanup => false,
            Stage::Abandon => false,
            Stage::Finished => false,
            Stage::Failed => false,
            _ => true,
        }
    }

    /// The transcript of a run, with what its content is checked against.
    pub fn finish(self) -> (r: Transcript)
        ensures
            r.target == self.view().target,
            frames(r.frames@) == self.view().frames,
            opt_text(r.disposable_thread_id) == self.view().disposable,
            r.semantic_ctx matches Some(c) && c.view() == self.view().ctx,
    {
        Transcript {
            target: self.transcript.target,
            frames: self.transcript.frames,
            semantic_ctx: Some(self.ctx),
            disposable_thread_id: self.transcript.disposable_thread_id,
        }
    }
}

fn until_done() -> (r: Vec<&'static str>)
    ensures
        r@ == UNTIL_DONE@,
{
    let mut v: Vec<&'static str> = Vec::new();
    v.push(UNTIL_DONE[0]);
    assert(v@ =~= UNTIL_DONE@);
    v
}

fn until_delta() -> (r: Vec<&'static str>)
    ensures
        r@ == UNTIL_DELTA@,
{
    let mut v: Vec<&'static str> = Vec::new();
    v.push(UNTIL_DELTA[0]);
    v.push(UNTIL_DELTA[1]);
    assert(v@ =~= UNTIL_DELTA@);
    v
}

fn until_output() -> (r: Vec<&'static str>)
    ensures
        r@ == UNTIL_OUTPUT@,
{
    let mut v: Vec<&'static str> = Vec::new();
    v.push(UNTIL_OUTPUT[0]);
    assert(v@ =~= UNTIL_OUTPUT@);
    v
}

// ---------------------------------------------------------------------------
// Laws
// ---------------------------------------------------------------------------
/// Whether an event is what a state waits for.
pub open spec fn awaited(st: ScenarioV, e: Event) -> bool {
    match e {
        Event::Failed => st.stage != Stage::Finished && st.stage != Stage::Failed,
        Event::Loaded(_) => st.stage == Stage::Load && !st.settling,
        Event::Reply { .. } => expects_reply(st.stage) && !st.settling,
        Event::Drained { .. } => (st.settling && expects_reply(st.stage)) || st.stage
            == Stage::ExecStartup,
        Event::Done => !expects_reply(st.stage) && st.stage != Stage::Load && st.stage
            != Stage::ExecStartup && st.stage != Stage::Finished && st.stage != Stage::Failed,
    }
}

/// How far a state is from the beginning.
pub open spec fn progress(st: ScenarioV) -> int {
    rank(st.stage) + (if st.settling {
        1int
    } else {
        0int
    })
}

/// Every awaited event brings a run forward, so that a run comes to its end.
pub proof fn law_run_makes_progress(st: ScenarioV, cfg: ScenarioConfig, e: Event)
    requires
        awaited(st, e),
        st.stage matches Stage::ReadOnly(i) ==> i < 7,
    ensures
        progress(advanced(st, cfg, e)) > progress(st),
        progress(advanced(st, cfg, e)) <= rank(Stage::Failed) + 1,
{
}

/// What was recorded stays recorded.
pub proof fn law_frames_are_kept(st: ScenarioV, cfg: ScenarioConfig, e: Event)
    ensures
        st.frames.len() <= advanced(st, cfg, e).frames.len(),
        advanced(st, cfg, e).frames.take(st.frames.len() as int) == st.frames,
{
    assert(advanced(st, cfg, e).frames.take(st.frames.len() as int) =~= st.frames);
}

/// A refusal is recorded like any other response, in every stage but the one that
/// resumes the thread of earlier runs.
pub proof fn law_refusals_are_recorded(
    st: ScenarioV,
    cfg: ScenarioConfig,
    response: JsonV,
    notes: Seq<JsonV>,
)
    requires
        st.stage != Stage::ResumeCached,
    ensures
        after_reply(st, cfg, response, notes).frames == st.frames.push(
            FrameV {
                step: step_of(st.stage),
                kind: FrameKind::Response,
                method: method_of(st.stage),
                raw: response,
            },
        ) + note_frames(step_of(st.stage), notes),
{
}

/// A thread that was made to be spoilt is archived when the run fails while it works
/// on it.
pub proof fn law_disposable_thread_is_cleaned_up(st: ScenarioV, cfg: ScenarioConfig)
    requires
        is_mutation(st.stage),
        st.disposable is Some,
        !st.settling,
    ensures
        action_of(advanced(st, cfg, Event::Failed), cfg) == (ActionV::Cleanup {
            thread_id: st.disposable->Some_0,
        }),
{
}

/// A wait for the end of a turn is over before it begins where the target has told
/// the end already, whatever else it told.
pub proof fn law_early_end_is_seen(s: Seq<JsonV>, i: int)
    requires
        0 <= i < s.len(),
        s[i].str_at("method"@) == Some("turn/completed"@),
    ensures
        prior_terminal(s, UNTIL_DONE@) == Some("turn/completed"@),
        prior_terminal(s, UNTIL_DELTA@) == Some("turn/completed"@),
{
    assert(UNTIL_DONE@[0]@ == "turn/completed"@);
    assert(UNTIL_DELTA@[1]@ == "turn/completed"@);
}

} // verus!
