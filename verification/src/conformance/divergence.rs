//! What each target is known to do otherwise than codex.
//!
//! To support more in a bridge is to remove the entry here: nothing passes in
//! silence.

use vstd::prelude::*;

use super::finding::{Finding, FindingV};
use super::transcript::{Frame, FrameV, TargetId};
use crate::text::{chars_of, index_of, index_or_end, is_listed, same, strs, text_of};

verus! {

/// Methods whose response is another tree altogether: the configuration, features,
/// servers and skills of another agent.
pub const SHAPE_DIVERGENT_RESPONSES: [&'static str; 5] = [
    "collaborationMode/list",
    "experimentalFeature/list",
    "mcpServerStatus/list",
    "config/read",
    "skills/list",
];

/// Notifications that come from subsystems that only codex has, or whose timing is
/// a choice of each bridge.
pub const SHAPE_DIVERGENT_NOTIFICATIONS: [&'static str; 21] = [
    "mcpServer/startupStatus/updated",
    "account/rateLimits/updated",
    "remoteControl/status/changed",
    "thread/goal/cleared",
    "thread/tokenUsage/updated",
    "item/started",
    "item/completed",
    "thread/status/changed",
    "thread/started",
    "thread/archived",
    "thread/unarchived",
    "thread/compacted",
    "turn/started",
    "turn/completed",
    "hook/started",
    "hook/completed",
    "warning",
    "item/commandExecution/outputDelta",
    "item/reasoning/textDelta",
    "item/reasoning/summaryTextDelta",
    "item/reasoning/summaryPartAdded",
];

/// Steps whose items an interruption may leave open.
pub const INTERRUPTED_TURN_STREAMING_RELAXED: [&'static str; 1] = [
    "turn/start.interruptible",
];

/// Steps that only a target with streamed commands passes.
pub const NO_STREAMING_EXEC_STEPS: [&'static str; 3] = [
    "command/exec.streaming",
    "command/exec/write",
    "command/exec/resize",
];

/// The step that steers a running turn.
pub const TURN_STEER_STEP: [&'static str; 1] = [
    "turn/steer",
];

/// Methods that may fail or answer otherwise on Pi.
pub const PI_METHODS: [&'static str; 3] = [
    "review/start",
    "command/exec/write",
    "command/exec/resize",
];

/// Notifications that differ on Pi.
pub const PI_NOTIFICATIONS: [&'static str; 1] = [
    "configWarning",
];

/// Methods that may fail or answer otherwise on Amp.
pub const AMP_METHODS: [&'static str; 7] = [
    "thread/fork",
    "thread/rollback",
    "mcpServer/oauth/login",
    "turn/interrupt",
    "review/start",
    "command/exec/write",
    "command/exec/resize",
];

/// Further steps that Amp may not pass.
pub const AMP_STEPS: [&'static str; 2] = [
    "turn/start.tool",
    "turn/start.interruptible",
];

/// Steps whose content Amp need not show.
pub const AMP_SEMANTIC: [&'static str; 1] = [
    "turn/start.tool",
];

/// Methods that may fail or answer otherwise on this target.
pub const CLAUDE_METHODS: [&'static str; 4] = [
    "review/start",
    "thread/rollback",
    "command/exec/write",
    "command/exec/resize",
];

/// Notifications that differ there.
pub const CLAUDE_NOTIFICATIONS: [&'static str; 1] = [
    "error",
];

/// Methods that may fail or answer otherwise on Opencode.
pub const OPENCODE_METHODS: [&'static str; 8] = [
    "account/login/start",
    "account/login/cancel",
    "account/logout",
    "mcpServer/oauth/login",
    "skills/config/write",
    "configRequirements/read",
    "thread/turns/list",
    "review/start",
];

/// Notifications that differ on Opencode.
pub const OPENCODE_NOTIFICATIONS: [&'static str; 16] = [
    "error",
    "thread/started",
    "thread/closed",
    "skills/changed",
    "turn/diff/updated",
    "turn/plan/updated",
    "item/reasoning/textDelta",
    "item/reasoning/summaryTextDelta",
    "item/reasoning/summaryPartAdded",
    "item/mcpToolCall/progress",
    "item/dynamicToolCall/argumentsDelta",
    "thread/name/updated",
    "model/rerouted",
    "configWarning",
    "deprecationNotice",
    "serverRequest/resolved",
];

/// Steps whose content Opencode need not show.
pub const OPENCODE_SEMANTIC: [&'static str; 1] = [
    "turn/start.tool",
];

/// Methods that may fail or answer otherwise on Droid.
pub const DROID_METHODS: [&'static str; 8] = [
    "mcpServer/oauth/login",
    "thread/fork",
    "thread/archive",
    "thread/unarchive",
    "thread/rollback",
    "review/start",
    "command/exec/write",
    "command/exec/resize",
];

/// Notifications that differ on Droid.
pub const DROID_NOTIFICATIONS: [&'static str; 1] = [
    "thread/name/updated",
];

/// Steps whose content Droid need not show.
pub const DROID_SEMANTIC: [&'static str; 1] = [
    "turn/start.tool",
];

/// Methods that may fail or answer otherwise on Hermes.
pub const HERMES_METHODS: [&'static str; 9] = [
    "account/login/start",
    "account/login/cancel",
    "account/logout",
    "mcpServer/oauth/login",
    "skills/config/write",
    "thread/fork",
    "thread/compact/start",
    "thread/rollback",
    "review/start",
];

/// Notifications that differ on Hermes.
pub const HERMES_NOTIFICATIONS: [&'static str; 9] = [
    "thread/name/updated",
    "turn/diff/updated",
    "turn/plan/updated",
    "item/mcpToolCall/progress",
    "item/dynamicToolCall/argumentsDelta",
    "model/rerouted",
    "configWarning",
    "deprecationNotice",
    "serverRequest/resolved",
];

/// Steps whose content Hermes need not show.
pub const HERMES_SEMANTIC: [&'static str; 1] = [
    "turn/start.tool",
];

/// Methods that may fail or answer otherwise on ACP agents.
pub const ACP_METHODS: [&'static str; 25] = [
    "account/login/start",
    "account/login/cancel",
    "account/logout",
    "feedback/upload",
    "mcpServer/oauth/login",
    "config/value/write",
    "config/batchWrite",
    "config/mcpServer/reload",
    "mock/experimentalMethod",
    "skills/remote/list",
    "skills/remote/export",
    "skills/config/write",
    "thread/resume",
    "thread/compact/start",
    "thread/rollback",
    "thread/archive",
    "thread/unarchive",
    "thread/turns/list",
    "thread/loaded/list",
    "thread/backgroundTerminals/clean",
    "review/start",
    "command/exec",
    "command/exec/write",
    "command/exec/resize",
    "turn/steer",
];

/// Steps whose content ACP agents need not show.
pub const ACP_SEMANTIC: [&'static str; 1] = [
    "turn/start.tool",
];

/// Fields of `thread/start` that only codex fills.
pub const FIELDS_THREAD_START: [&'static str; 11] = [
    "instructionSources",
    "instructionSources[]",
    "permissionProfile",
    "permissionProfile.type",
    "reasoningEffort",
    "serviceTier",
    "thread.agentNickname",
    "thread.agentRole",
    "thread.name",
    "thread.path",
    "thread.turns[].items[].phase",
];

/// Fields of `thread/fork` that only codex fills.
pub const FIELDS_THREAD_FORK: [&'static str; 31] = [
    "instructionSources",
    "instructionSources[]",
    "permissionProfile",
    "permissionProfile.type",
    "reasoningEffort",
    "serviceTier",
    "thread.forkedFromId",
    "thread.gitInfo",
    "thread.gitInfo.branch",
    "thread.gitInfo.originUrl",
    "thread.gitInfo.sha",
    "thread.name",
    "thread.path",
    "thread.turns[].completedAt",
    "thread.turns[].durationMs",
    "thread.turns[].id",
    "thread.turns[].items",
    "thread.turns[].itemsView",
    "thread.turns[].items[]",
    "thread.turns[].items[].content",
    "thread.turns[].items[].content[]",
    "thread.turns[].items[].content[].text",
    "thread.turns[].items[].content[].text_elements",
    "thread.turns[].items[].content[].text_elements[]",
    "thread.turns[].items[].content[].type",
    "thread.turns[].items[].id",
    "thread.turns[].items[].phase",
    "thread.turns[].items[].text",
    "thread.turns[].items[].type",
    "thread.turns[].startedAt",
    "thread.turns[].status",
];

/// Fields of `thread/resume` that only codex fills.
pub const FIELDS_THREAD_RESUME: [&'static str; 35] = [
    "serviceTier",
    "thread.turns[].items[].phase",
    "thread.agentNickname",
    "thread.agentRole",
    "thread.name",
    "thread.path",
    "thread.turns[].durationMs",
    "thread.turns[].items[].aggregatedOutput",
    "thread.turns[].items[].arguments",
    "thread.turns[].items[].arguments.cmd",
    "thread.turns[].items[].command",
    "thread.turns[].items[].commandActions",
    "thread.turns[].items[].commandActions[]",
    "thread.turns[].items[].commandActions[].command",
    "thread.turns[].items[].commandActions[].name",
    "thread.turns[].items[].commandActions[].path",
    "thread.turns[].items[].commandActions[].type",
    "thread.turns[].items[].contentItems",
    "thread.turns[].items[].contentItems[]",
    "thread.turns[].items[].contentItems[].text",
    "thread.turns[].items[].contentItems[].type",
    "thread.turns[].items[].cwd",
    "thread.turns[].items[].durationMs",
    "thread.turns[].items[].exitCode",
    "thread.turns[].items[].namespace",
    "thread.turns[].items[].source",
    "thread.turns[].items[].status",
    "thread.turns[].items[].success",
    "thread.turns[].items[].summary",
    "thread.turns[].items[].summary[]",
    "thread.turns[].items[].tool",
    "permissionProfile",
    "permissionProfile.type",
    "thread.turns[].error",
    "thread.turns[].error.message",
];

/// Fields of `thread/read` that only codex fills.
pub const FIELDS_THREAD_READ: [&'static str; 32] = [
    "thread.agentNickname",
    "thread.agentRole",
    "thread.path",
    "thread.name",
    "thread.turns[].durationMs",
    "thread.turns[].error",
    "thread.turns[].error.message",
    "thread.turns[].items[].arguments",
    "thread.turns[].items[].arguments.cmd",
    "thread.turns[].items[].phase",
    "thread.turns[].items[].aggregatedOutput",
    "thread.turns[].items[].command",
    "thread.turns[].items[].commandActions",
    "thread.turns[].items[].commandActions[]",
    "thread.turns[].items[].commandActions[].command",
    "thread.turns[].items[].commandActions[].name",
    "thread.turns[].items[].commandActions[].path",
    "thread.turns[].items[].commandActions[].type",
    "thread.turns[].items[].contentItems",
    "thread.turns[].items[].contentItems[]",
    "thread.turns[].items[].contentItems[].text",
    "thread.turns[].items[].contentItems[].type",
    "thread.turns[].items[].cwd",
    "thread.turns[].items[].durationMs",
    "thread.turns[].items[].exitCode",
    "thread.turns[].items[].namespace",
    "thread.turns[].items[].source",
    "thread.turns[].items[].status",
    "thread.turns[].items[].success",
    "thread.turns[].items[].summary",
    "thread.turns[].items[].summary[]",
    "thread.turns[].items[].tool",
];

/// Fields of `thread/rollback` that only codex fills.
pub const FIELDS_THREAD_ROLLBACK: [&'static str; 21] = [
    "thread.name",
    "thread.turns[].completedAt",
    "thread.turns[].durationMs",
    "thread.turns[].id",
    "thread.turns[].items",
    "thread.turns[].itemsView",
    "thread.turns[].items[]",
    "thread.turns[].items[].content",
    "thread.turns[].items[].content[]",
    "thread.turns[].items[].content[].text",
    "thread.turns[].items[].content[].text_elements",
    "thread.turns[].items[].content[].text_elements[]",
    "thread.turns[].items[].content[].type",
    "thread.turns[].items[].id",
    "thread.turns[].items[].phase",
    "thread.turns[].items[].summary",
    "thread.turns[].items[].summary[]",
    "thread.turns[].items[].text",
    "thread.turns[].items[].type",
    "thread.turns[].startedAt",
    "thread.turns[].status",
];

/// Fields of `thread/unarchive` that only codex fills.
pub const FIELDS_THREAD_UNARCHIVE: [&'static str; 4] = [
    "thread.agentNickname",
    "thread.agentRole",
    "thread.name",
    "thread.path",
];

/// Fields of `account/read` that only codex fills.
pub const FIELDS_ACCOUNT_READ: [&'static str; 2] = [
    "account.email",
    "account.planType",
];

/// Fields of `model/list` that only codex fills.
pub const FIELDS_MODEL_LIST: [&'static str; 12] = [
    "data[].availabilityNux",
    "data[].availabilityNux.message",
    "data[].serviceTiers[]",
    "data[].serviceTiers[].description",
    "data[].serviceTiers[].id",
    "data[].serviceTiers[].name",
    "data[].upgrade",
    "data[].upgradeInfo",
    "data[].upgradeInfo.model",
    "data[].upgradeInfo.upgradeCopy",
    "data[].upgradeInfo.modelLink",
    "data[].upgradeInfo.migrationMarkdown",
];

/// Fields of `thread/list` that only codex fills.
pub const FIELDS_THREAD_LIST: [&'static str; 21] = [
    "data[].cliVersion",
    "data[].createdAt",
    "data[].cwd",
    "data[].ephemeral",
    "data[].forkedFromId",
    "data[].id",
    "data[].modelProvider",
    "data[].name",
    "data[].path",
    "data[].preview",
    "data[].sessionId",
    "data[].source",
    "data[].status",
    "data[].status.type",
    "data[].turns",
    "data[].turns[]",
    "data[].updatedAt",
    "data[].agentNickname",
    "data[].agentRole",
    "nextCursor",
    "backwardsCursor",
];

/// Fields of `thread/turns/list` that only codex fills.
pub const FIELDS_THREAD_TURNS_LIST: [&'static str; 7] = [
    "backwardsCursor",
    "data[].error",
    "data[].error.message",
    "data[].durationMs",
    "data[].items[].phase",
    "data[].items[].summary",
    "data[].items[].summary[]",
];

/// Fields of `turn/start` that only codex fills.
pub const FIELDS_TURN_START: [&'static str; 28] = [
    "turn.completedAt",
    "turn.durationMs",
    "turn.items[].aggregatedOutput",
    "turn.items[].command",
    "turn.items[].commandActions",
    "turn.items[].commandActions[]",
    "turn.items[].content",
    "turn.items[].contentItems",
    "turn.items[].contentItems[]",
    "turn.items[].contentItems[].text",
    "turn.items[].contentItems[].type",
    "turn.items[].content[]",
    "turn.items[].content[].text",
    "turn.items[].content[].text_elements",
    "turn.items[].content[].text_elements[]",
    "turn.items[].content[].type",
    "turn.items[].cwd",
    "turn.items[].durationMs",
    "turn.items[].id",
    "turn.items[].source",
    "turn.items[].status",
    "turn.items[].success",
    "turn.items[].summary",
    "turn.items[].summary[]",
    "turn.items[].text",
    "turn.items[].tool",
    "turn.items[].type",
    "turn.startedAt",
];

/// The fields of one method that only codex fills.
pub struct FieldPaths {
    pub method: &'static str,
    pub paths: Vec<&'static str>,
}

/// The model of [`FieldPaths`].
pub type FieldPathsV = (Seq<char>, Seq<Seq<char>>);

impl FieldPaths {
    /// The model of this entry.
    pub open spec fn view(&self) -> FieldPathsV {
        (self.method@, strs(self.paths@))
    }
}

/// The models of a list of entries.
pub open spec fn field_paths(s: Seq<FieldPaths>) -> Seq<FieldPathsV> {
    s.map_values(|p: FieldPaths| p.view())
}

/// What a target is known to do otherwise than codex.
pub struct KnownDivergence {
    pub target: TargetId,
    /// Methods that may fail on the target, and whose response is not compared.
    pub skipped_methods: Vec<&'static str>,
    /// Steps that may differ as a whole, where the same method is still checked
    /// elsewhere with other parameters.
    pub skipped_steps: Vec<&'static str>,
    /// Notifications whose presence and shape may differ either way.
    pub skipped_notifications: Vec<&'static str>,
    /// Fields by method that are left out when keys are compared.
    pub field_path_divergences: Vec<FieldPaths>,
    /// Methods that may fail the checks across frames.
    pub streaming_relaxed_methods: Vec<&'static str>,
    /// Methods that may fail the checks of content.
    pub semantic_relaxed_methods: Vec<&'static str>,
}

/// The model of [`KnownDivergence`].
pub struct DivergenceV {
    pub target: TargetId,
    pub skipped_methods: Seq<Seq<char>>,
    pub skipped_steps: Seq<Seq<char>>,
    pub skipped_notifications: Seq<Seq<char>>,
    pub fields: Seq<FieldPathsV>,
    pub streaming_relaxed_methods: Seq<Seq<char>>,
    pub semantic_relaxed_methods: Seq<Seq<char>>,
}

/// The fields that no bridge has to fill, by method.
pub open spec fn common_fields() -> Seq<FieldPathsV> {
    seq![
        ("thread/start"@, strs(FIELDS_THREAD_START@)),
        ("thread/fork"@, strs(FIELDS_THREAD_FORK@)),
        ("thread/resume"@, strs(FIELDS_THREAD_RESUME@)),
        ("thread/read"@, strs(FIELDS_THREAD_READ@)),
        ("thread/rollback"@, strs(FIELDS_THREAD_ROLLBACK@)),
        ("thread/unarchive"@, strs(FIELDS_THREAD_UNARCHIVE@)),
        ("account/read"@, strs(FIELDS_ACCOUNT_READ@)),
        ("model/list"@, strs(FIELDS_MODEL_LIST@)),
        ("thread/list"@, strs(FIELDS_THREAD_LIST@)),
        ("thread/turns/list"@, strs(FIELDS_THREAD_TURNS_LIST@)),
        ("turn/start"@, strs(FIELDS_TURN_START@)),
    ]
}

/// What each target is known to do otherwise.
pub open spec fn divergence_of(target: TargetId) -> DivergenceV {
    DivergenceV {
        target,
        skipped_methods: match target {
            TargetId::Codex => Seq::empty(),
            TargetId::Pi => strs(PI_METHODS@) + strs(SHAPE_DIVERGENT_RESPONSES@),
            TargetId::Amp => strs(AMP_METHODS@) + strs(SHAPE_DIVERGENT_RESPONSES@),
            TargetId::Claude => strs(CLAUDE_METHODS@) + strs(SHAPE_DIVERGENT_RESPONSES@),
            TargetId::Opencode => strs(OPENCODE_METHODS@) + strs(SHAPE_DIVERGENT_RESPONSES@),
            TargetId::Droid => strs(DROID_METHODS@) + strs(SHAPE_DIVERGENT_RESPONSES@),
            TargetId::Hermes => strs(HERMES_METHODS@) + strs(SHAPE_DIVERGENT_RESPONSES@),
            TargetId::Acp => strs(ACP_METHODS@) + strs(SHAPE_DIVERGENT_RESPONSES@),
        },
        skipped_steps: match target {
            TargetId::Codex => Seq::empty(),
            TargetId::Pi => strs(NO_STREAMING_EXEC_STEPS@) + strs(TURN_STEER_STEP@),
            TargetId::Amp => strs(NO_STREAMING_EXEC_STEPS@) + strs(TURN_STEER_STEP@) + strs(AMP_STEPS@),
            TargetId::Claude => strs(NO_STREAMING_EXEC_STEPS@) + strs(TURN_STEER_STEP@),
            TargetId::Opencode => strs(TURN_STEER_STEP@),
            TargetId::Droid => strs(NO_STREAMING_EXEC_STEPS@) + strs(TURN_STEER_STEP@),
            TargetId::Hermes => strs(NO_STREAMING_EXEC_STEPS@) + strs(TURN_STEER_STEP@),
            TargetId::Acp => strs(NO_STREAMING_EXEC_STEPS@) + strs(TURN_STEER_STEP@),
        },
        skipped_notifications: match target {
            TargetId::Codex => Seq::empty(),
            TargetId::Pi => strs(PI_NOTIFICATIONS@) + strs(SHAPE_DIVERGENT_NOTIFICATIONS@),
            TargetId::Amp => strs(SHAPE_DIVERGENT_NOTIFICATIONS@),
            TargetId::Claude => strs(CLAUDE_NOTIFICATIONS@) + strs(SHAPE_DIVERGENT_NOTIFICATIONS@),
            TargetId::Opencode => strs(OPENCODE_NOTIFICATIONS@) + strs(SHAPE_DIVERGENT_NOTIFICATIONS@),
            TargetId::Droid => strs(DROID_NOTIFICATIONS@) + strs(SHAPE_DIVERGENT_NOTIFICATIONS@),
            TargetId::Hermes => strs(HERMES_NOTIFICATIONS@) + strs(SHAPE_DIVERGENT_NOTIFICATIONS@),
            TargetId::Acp => strs(SHAPE_DIVERGENT_NOTIFICATIONS@),
        },
        fields: if target == TargetId::Codex {
            Seq::empty()
        } else {
            common_fields()
        },
        streaming_relaxed_methods: strs(INTERRUPTED_TURN_STREAMING_RELAXED@),
        semantic_relaxed_methods: match target {
            TargetId::Codex => Seq::empty(),
            TargetId::Pi => Seq::empty(),
            TargetId::Amp => strs(AMP_SEMANTIC@),
            TargetId::Claude => Seq::empty(),
            TargetId::Opencode => strs(OPENCODE_SEMANTIC@),
            TargetId::Droid => strs(DROID_SEMANTIC@),
            TargetId::Hermes => strs(HERMES_SEMANTIC@),
            TargetId::Acp => strs(ACP_SEMANTIC@),
        },
    }
}

fn extended(mut v: Vec<&'static str>, more: &[&'static str]) -> (r: Vec<&'static str>)
    ensures
        strs(r@) == strs(v@) + strs(more@),
{
    let ghost start = v@;
    let n: usize = more.len();
    let mut i: usize = 0;
    while i < n
        invariant
            i <= n,
            n == more@.len(),
            v@ == start + more@.take(i as int),
        decreases n - i,
    {
        assert(more@.take(i + 1) =~= more@.take(i as int).push(more@[i as int]));
        v.push(more[i]);
        i += 1;
    }
    assert(more@.take(n as int) =~= more@);
    assert(strs(start + more@) =~= strs(start) + strs(more@));
    v
}

fn all_of(a: &[&'static str]) -> (r: Vec<&'static str>)
    ensures
        strs(r@) == strs(a@),
{
    let none: Vec<&'static str> = Vec::new();
    let r = extended(none, a);
    assert(strs(none@) + strs(a@) =~= strs(a@));
    r
}

/// Two tables as one.
fn concat_static(a: &[&'static str], b: &[&'static str]) -> (r: Vec<&'static str>)
    ensures
        strs(r@) == strs(a@) + strs(b@),
{
    extended(all_of(a), b)
}

fn nothing() -> (r: Vec<&'static str>)
    ensures
        strs(r@) == Seq::<Seq<char>>::empty(),
{
    let r: Vec<&'static str> = Vec::new();
    assert(strs(r@) =~= Seq::empty());
    r
}

fn paths_of(method: &'static str, paths: &[&'static str]) -> (r: FieldPaths)
    ensures
        r.view() == (method@, strs(paths@)),
{
    FieldPaths { method, paths: all_of(paths) }
}

fn common_field_divergences() -> (r: Vec<FieldPaths>)
    ensures
        field_paths(r@) == common_fields(),
{
    let mut v: Vec<FieldPaths> = Vec::new();
    v.push(paths_of("thread/start", &FIELDS_THREAD_START));
    v.push(paths_of("thread/fork", &FIELDS_THREAD_FORK));
    v.push(paths_of("thread/resume", &FIELDS_THREAD_RESUME));
    v.push(paths_of("thread/read", &FIELDS_THREAD_READ));
    v.push(paths_of("thread/rollback", &FIELDS_THREAD_ROLLBACK));
    v.push(paths_of("thread/unarchive", &FIELDS_THREAD_UNARCHIVE));
    v.push(paths_of("account/read", &FIELDS_ACCOUNT_READ));
    v.push(paths_of("model/list", &FIELDS_MODEL_LIST));
    v.push(paths_of("thread/list", &FIELDS_THREAD_LIST));
    v.push(paths_of("thread/turns/list", &FIELDS_THREAD_TURNS_LIST));
    v.push(paths_of("turn/start", &FIELDS_TURN_START));
    assert(field_paths(v@) =~= common_fields());
    v
}

impl KnownDivergence {
    /// The model of this value.
    pub open spec fn view(&self) -> DivergenceV {
        DivergenceV {
            target: self.target,
            skipped_methods: strs(self.skipped_methods@),
            skipped_steps: strs(self.skipped_steps@),
            skipped_notifications: strs(self.skipped_notifications@),
            fields: field_paths(self.field_path_divergences@),
            streaming_relaxed_methods: strs(self.streaming_relaxed_methods@),
            semantic_relaxed_methods: strs(self.semantic_relaxed_methods@),
        }
    }

    /// What `target` is known to do otherwise.
    pub fn for_target(target: TargetId) -> (r: KnownDivergence)
        ensures
            r.view() == divergence_of(target),
    {
        let skipped_methods = match target {
            TargetId::Codex => nothing(),
            TargetId::Pi => concat_static(&PI_METHODS, &SHAPE_DIVERGENT_RESPONSES),
            TargetId::Amp => concat_static(&AMP_METHODS, &SHAPE_DIVERGENT_RESPONSES),
            TargetId::Claude => concat_static(&CLAUDE_METHODS, &SHAPE_DIVERGENT_RESPONSES),
            TargetId::Opencode => concat_static(&OPENCODE_METHODS, &SHAPE_DIVERGENT_RESPONSES),
            TargetId::Droid => concat_static(&DROID_METHODS, &SHAPE_DIVERGENT_RESPONSES),
            TargetId::Hermes => concat_static(&HERMES_METHODS, &SHAPE_DIVERGENT_RESPONSES),
            TargetId::Acp => concat_static(&ACP_METHODS, &SHAPE_DIVERGENT_RESPONSES),
        };
        let skipped_steps = match target {
            TargetId::Codex => nothing(),
            TargetId::Pi => concat_static(&NO_STREAMING_EXEC_STEPS, &TURN_STEER_STEP),
            TargetId::Amp => extended(concat_static(&NO_STREAMING_EXEC_STEPS, &TURN_STEER_STEP), &AMP_STEPS),
            TargetId::Claude => concat_static(&NO_STREAMING_EXEC_STEPS, &TURN_STEER_STEP),
            TargetId::Opencode => all_of(&TURN_STEER_STEP),
            TargetId::Droid => concat_static(&NO_STREAMING_EXEC_STEPS, &TURN_STEER_STEP),
            TargetId::Hermes => concat_static(&NO_STREAMING_EXEC_STEPS, &TURN_STEER_STEP),
            TargetId::Acp => concat_static(&NO_STREAMING_EXEC_STEPS, &TURN_STEER_STEP),
        };
        let skipped_notifications = match target {
            TargetId::Codex => nothing(),
            TargetId::Pi => concat_static(&PI_NOTIFICATIONS, &SHAPE_DIVERGENT_NOTIFICATIONS),
            TargetId::Amp => all_of(&SHAPE_DIVERGENT_NOTIFICATIONS),
            TargetId::Claude => concat_static(&CLAUDE_NOTIFICATIONS, &SHAPE_DIVERGENT_NOTIFICATIONS),
            TargetId::Opencode => concat_static(&OPENCODE_NOTIFICATIONS, &SHAPE_DIVERGENT_NOTIFICATIONS),
            TargetId::Droid => concat_static(&DROID_NOTIFICATIONS, &SHAPE_DIVERGENT_NOTIFICATIONS),
            TargetId::Hermes => concat_static(&HERMES_NOTIFICATIONS, &SHAPE_DIVERGENT_NOTIFICATIONS),
            TargetId::Acp => all_of(&SHAPE_DIVERGENT_NOTIFICATIONS),
        };
        let semantic_relaxed_methods = match target {
            TargetId::Codex => nothing(),
            TargetId::Pi => nothing(),
            TargetId::Amp => all_of(&AMP_SEMANTIC),
            TargetId::Claude => nothing(),
            TargetId::Opencode => all_of(&OPENCODE_SEMANTIC),
            TargetId::Droid => all_of(&DROID_SEMANTIC),
            TargetId::Hermes => all_of(&HERMES_SEMANTIC),
            TargetId::Acp => all_of(&ACP_SEMANTIC),
        };
        let field_path_divergences = match target {
            TargetId::Codex => {
                let none: Vec<FieldPaths> = Vec::new();
                assert(field_paths(none@) =~= Seq::empty());
                none
            },
            _ => common_field_divergences(),
        };
        KnownDivergence {
            target,
            skipped_methods,
            skipped_steps,
            skipped_notifications,
            field_path_divergences,
            streaming_relaxed_methods: all_of(&INTERRUPTED_TURN_STREAMING_RELAXED),
            semantic_relaxed_methods,
        }
    }

    /// Whether a step may differ as a whole.
    pub fn skips_step(&self, step: &str) -> (r: bool)
        ensures
            r == self.view().skipped_steps.contains(step@),
    {
        names(&self.skipped_steps, step)
    }

    /// Whether a method may fail.
    pub fn skips_method(&self, method: &str) -> (r: bool)
        ensures
            r == self.view().skipped_methods.contains(method@),
    {
        names(&self.skipped_methods, method)
    }

    /// Whether a notification may differ.
    pub fn skips_notification(&self, method: &str) -> (r: bool)
        ensures
            r == self.view().skipped_notifications.contains(method@),
    {
        names(&self.skipped_notifications, method)
    }

    /// Whether a response may be an error.
    pub fn skips_response(&self, frame: &Frame) -> (r: bool)
        ensures
            r == response_skipped(self.view(), frame.view()),
    {
        self.skips_method(frame.method.as_str()) || self.skips_step(frame.step.as_str())
    }

    /// Whether a finding of the checks across frames is let pass.
    pub fn relaxes_streaming(&self, finding: &Finding) -> (r: bool)
        ensures
            r == relaxed(finding.view(), self.view().streaming_relaxed_methods),
    {
        method_relaxed(finding, &self.streaming_relaxed_methods)
    }

    /// Whether a finding of the checks of content is let pass.
    pub fn relaxes_semantic(&self, finding: &Finding) -> (r: bool)
        ensures
            r == relaxed(finding.view(), self.view().semantic_relaxed_methods),
    {
        method_relaxed(finding, &self.semantic_relaxed_methods)
    }

    /// Whether a key of a method is left out when keys are compared.
    pub fn allows_path(&self, method: &str, path: &str) -> (r: bool)
        ensures
            r == path_allowed(self.view().fields, method@, path@),
    {
        let n: usize = self.field_path_divergences.len();
        let mut i: usize = 0;
        while i < n
            invariant
                i <= n,
                n == self.field_path_divergences@.len(),
                forall|j: int|
                    0 <= j < i ==> !((#[trigger] self.view().fields[j]).0 == method@
                        && self.view().fields[j].1.contains(path@)),
            decreases n - i,
        {
            let entry = &self.field_path_divergences[i];
            assert(self.view().fields[i as int] == entry.view());
            if same(entry.method, method) && names(&entry.paths, path) {
                return true;
            }
            i += 1;
        }
        false
    }
}

/// A response that may be an error.
pub open spec fn response_skipped(d: DivergenceV, f: FrameV) -> bool {
    d.skipped_methods.contains(f.method) || d.skipped_steps.contains(f.step)
}

/// A key of a method that is left out when keys are compared.
pub open spec fn path_allowed(
    fields: Seq<FieldPathsV>,
    method: Seq<char>,
    path: Seq<char>,
) -> bool {
    exists|i: int|
        0 <= i < fields.len() && (#[trigger] fields[i]).0 == method && fields[i].1.contains(path)
}

/// The method that a step is named after: what stands before the first dot.
pub open spec fn step_method(step: Seq<char>) -> Seq<char> {
    step.take(index_or_end(step, '.'))
}

/// A finding whose method, or whose step, is on a list. The step counts by its own
/// name and by the method that it is named after.
pub open spec fn relaxed(f: FindingV, methods: Seq<Seq<char>>) -> bool {
    methods.contains(f.method()) || methods.contains(f.step()) || methods.contains(
        step_method(f.step()),
    )
}

fn names(v: &Vec<&'static str>, x: &str) -> (r: bool)
    ensures
        r == strs(v@).contains(x@),
{
    let r = is_listed(v.as_slice(), x);
    proof {
        if r {
            let i = choose|i: int| 0 <= i < v@.len() && #[trigger] v@[i]@ == x@;
            assert(strs(v@)[i] == x@);
        }
        if strs(v@).contains(x@) {
            let i = choose|i: int| 0 <= i < strs(v@).len() && strs(v@)[i] == x@;
            assert(v@[i]@ == x@);
        }
    }
    r
}

fn method_relaxed(finding: &Finding, methods: &Vec<&'static str>) -> (r: bool)
    ensures
        r == relaxed(finding.view(), strs(methods@)),
{
    let step = finding.step();
    let chars = chars_of(step);
    let end: usize = index_of(chars.as_slice(), '.', 0);
    proof {
        assert(step@.skip(0) =~= step@);
    }
    let head = text_of(chars.as_slice(), 0, end);
    assert(head@ =~= step_method(step@));
    names(methods, finding.method()) || names(methods, step) || names(methods, head.as_str())
}

// ---------------------------------------------------------------------------
// Laws
// ---------------------------------------------------------------------------
/// Of codex itself nothing is known to differ, but that an interruption may leave
/// items open.
pub proof fn law_reference_has_no_divergence(method: Seq<char>, step: Seq<char>, path: Seq<char>)
    ensures
        !divergence_of(TargetId::Codex).skipped_methods.contains(method),
        !divergence_of(TargetId::Codex).skipped_steps.contains(step),
        !divergence_of(TargetId::Codex).skipped_notifications.contains(method),
        !path_allowed(divergence_of(TargetId::Codex).fields, method, path),
        !divergence_of(TargetId::Codex).semantic_relaxed_methods.contains(method),
{
}

/// Every bridge may answer with another tree where only codex has the subsystem,
/// and its fields are compared alike.
pub proof fn law_bridges_share_the_common_gaps(target: TargetId, method: Seq<char>)
    requires
        target != TargetId::Codex,
        strs(SHAPE_DIVERGENT_RESPONSES@).contains(method),
    ensures
        divergence_of(target).skipped_methods.contains(method),
        divergence_of(target).fields == common_fields(),
{
    let shared = strs(SHAPE_DIVERGENT_RESPONSES@);
    let all = divergence_of(target).skipped_methods;
    let i = choose|i: int| 0 <= i < shared.len() && shared[i] == method;
    assert(all[all.len() - shared.len() + i] == method);
}

} // verus!
