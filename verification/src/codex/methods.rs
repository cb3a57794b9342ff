//! The request methods of the app-server protocol.

use vstd::prelude::*;

use crate::text::same;

verus! {

/// A request method that clients of a bridge use.
#[derive(Clone, Copy, Debug, PartialEq, Eq, Structural)]
pub enum Method {
    ThreadStart,
    ThreadResume,
    ThreadFork,
    ThreadArchive,
    ThreadUnarchive,
    ThreadNameSet,
    ThreadCompactStart,
    ThreadRollback,
    ThreadList,
    ThreadLoadedList,
    ThreadRead,
    ThreadTurnsList,
    ThreadBackgroundTerminalsClean,
    TurnStart,
    TurnSteer,
    TurnInterrupt,
    ReviewStart,
    ModelList,
    AccountRead,
    AccountRateLimitsRead,
    AccountLoginStart,
    AccountLoginCancel,
    AccountLogout,
    ConfigRead,
    ConfigValueWrite,
    ConfigBatchWrite,
    ConfigRequirementsRead,
    McpServerStatusList,
    ConfigMcpServerReload,
    McpServerOauthLogin,
    SkillsList,
    SkillsRemoteList,
    SkillsRemoteExport,
    SkillsConfigWrite,
    CommandExec,
    CommandExecWrite,
    CommandExecTerminate,
    CommandExecResize,
    MockExperimentalMethod,
    ExperimentalFeatureList,
    CollaborationModeList,
    FeedbackUpload,
}

impl Method {
    /// The name on the wire.
    pub open spec fn name(self) -> Seq<char> {
        match self {
            Method::ThreadStart => "thread/start"@,
            Method::ThreadResume => "thread/resume"@,
            Method::ThreadFork => "thread/fork"@,
            Method::ThreadArchive => "thread/archive"@,
            Method::ThreadUnarchive => "thread/unarchive"@,
            Method::ThreadNameSet => "thread/name/set"@,
            Method::ThreadCompactStart => "thread/compact/start"@,
            Method::ThreadRollback => "thread/rollback"@,
            Method::ThreadList => "thread/list"@,
            Method::ThreadLoadedList => "thread/loaded/list"@,
            Method::ThreadRead => "thread/read"@,
            Method::ThreadTurnsList => "thread/turns/list"@,
            Method::ThreadBackgroundTerminalsClean => "thread/backgroundTerminals/clean"@,
            Method::TurnStart => "turn/start"@,
            Method::TurnSteer => "turn/steer"@,
            Method::TurnInterrupt => "turn/interrupt"@,
            Method::ReviewStart => "review/start"@,
            Method::ModelList => "model/list"@,
            Method::AccountRead => "account/read"@,
            Method::AccountRateLimitsRead => "account/rateLimits/read"@,
            Method::AccountLoginStart => "account/login/start"@,
            Method::AccountLoginCancel => "account/login/cancel"@,
            Method::AccountLogout => "account/logout"@,
            Method::ConfigRead => "config/read"@,
            Method::ConfigValueWrite => "config/value/write"@,
            Method::ConfigBatchWrite => "config/batchWrite"@,
            Method::ConfigRequirementsRead => "configRequirements/read"@,
            Method::McpServerStatusList => "mcpServerStatus/list"@,
            Method::ConfigMcpServerReload => "config/mcpServer/reload"@,
            Method::McpServerOauthLogin => "mcpServer/oauth/login"@,
            Method::SkillsList => "skills/list"@,
            Method::SkillsRemoteList => "skills/remote/list"@,
            Method::SkillsRemoteExport => "skills/remote/export"@,
            Method::SkillsConfigWrite => "skills/config/write"@,
            Method::CommandExec => "command/exec"@,
            Method::CommandExecWrite => "command/exec/write"@,
            Method::CommandExecTerminate => "command/exec/terminate"@,
            Method::CommandExecResize => "command/exec/resize"@,
            Method::MockExperimentalMethod => "mock/experimentalMethod"@,
            Method::ExperimentalFeatureList => "experimentalFeature/list"@,
            Method::CollaborationModeList => "collaborationMode/list"@,
            Method::FeedbackUpload => "feedback/upload"@,
        }
    }

    /// The name on the wire.
    pub fn as_str(&self) -> (r: &'static str)
        ensures
            r@ == self.name(),
    {
        match self {
            Method::ThreadStart => "thread/start",
            Method::ThreadResume => "thread/resume",
            Method::ThreadFork => "thread/fork",
            Method::ThreadArchive => "thread/archive",
            Method::ThreadUnarchive => "thread/unarchive",
            Method::ThreadNameSet => "thread/name/set",
            Method::ThreadCompactStart => "thread/compact/start",
            Method::ThreadRollback => "thread/rollback",
            Method::ThreadList => "thread/list",
            Method::ThreadLoadedList => "thread/loaded/list",
            Method::ThreadRead => "thread/read",
            Method::ThreadTurnsList => "thread/turns/list",
            Method::ThreadBackgroundTerminalsClean => "thread/backgroundTerminals/clean",
            Method::TurnStart => "turn/start",
            Method::TurnSteer => "turn/steer",
            Method::TurnInterrupt => "turn/interrupt",
            Method::ReviewStart => "review/start",
            Method::ModelList => "model/list",
            Method::AccountRead => "account/read",
            Method::AccountRateLimitsRead => "account/rateLimits/read",
            Method::AccountLoginStart => "account/login/start",
            Method::AccountLoginCancel => "account/login/cancel",
            Method::AccountLogout => "account/logout",
            Method::ConfigRead => "config/read",
            Method::ConfigValueWrite => "config/value/write",
            Method::ConfigBatchWrite => "config/batchWrite",
            Method::ConfigRequirementsRead => "configRequirements/read",
            Method::McpServerStatusList => "mcpServerStatus/list",
            Method::ConfigMcpServerReload => "config/mcpServer/reload",
            Method::McpServerOauthLogin => "mcpServer/oauth/login",
            Method::SkillsList => "skills/list",
            Method::SkillsRemoteList => "skills/remote/list",
            Method::SkillsRemoteExport => "skills/remote/export",
            Method::SkillsConfigWrite => "skills/config/write",
            Method::CommandExec => "command/exec",
            Method::CommandExecWrite => "command/exec/write",
            Method::CommandExecTerminate => "command/exec/terminate",
            Method::CommandExecResize => "command/exec/resize",
            Method::MockExperimentalMethod => "mock/experimentalMethod",
            Method::ExperimentalFeatureList => "experimentalFeature/list",
            Method::CollaborationModeList => "collaborationMode/list",
            Method::FeedbackUpload => "feedback/upload",
        }
    }

    /// The method of a given name: its name is the given one, and no method has a
    /// name that is not found.
    pub fn of(name: &str) -> (r: Option<Method>)
        ensures
            match r {
                Some(m) => m.name() == name@,
                None => forall|m: Method| #[trigger] m.name() != name@,
            },
    {
        if same(name, "thread/start") {
            return Some(Method::ThreadStart);
        }
        if same(name, "thread/resume") {
            return Some(Method::ThreadResume);
        }
        if same(name, "thread/fork") {
            return Some(Method::ThreadFork);
        }
        if same(name, "thread/archive") {
            return Some(Method::ThreadArchive);
        }
        if same(name, "thread/unarchive") {
            return Some(Method::ThreadUnarchive);
        }
        if same(name, "thread/name/set") {
            return Some(Method::ThreadNameSet);
        }
        if same(name, "thread/compact/start") {
            return Some(Method::ThreadCompactStart);
        }
        if same(name, "thread/rollback") {
            return Some(Method::ThreadRollback);
        }
        if same(name, "thread/list") {
            return Some(Method::ThreadList);
        }
        if same(name, "thread/loaded/list") {
            return Some(Method::ThreadLoadedList);
        }
        if same(name, "thread/read") {
            return Some(Method::ThreadRead);
        }
        if same(name, "thread/turns/list") {
            return Some(Method::ThreadTurnsList);
        }
        if same(name, "thread/backgroundTerminals/clean") {
            return Some(Method::ThreadBackgroundTerminalsClean);
        }
        if same(name, "turn/start") {
            return Some(Method::TurnStart);
        }
        if same(name, "turn/steer") {
            return Some(Method::TurnSteer);
        }
        if same(name, "turn/interrupt") {
            return Some(Method::TurnInterrupt);
        }
        if same(name, "review/start") {
            return Some(Method::ReviewStart);
        }
        if same(name, "model/list") {
            return Some(Method::ModelList);
        }
        if same(name, "account/read") {
            return Some(Method::AccountRead);
        }
        if same(name, "account/rateLimits/read") {
            return Some(Method::AccountRateLimitsRead);
        }
        if same(name, "account/login/start") {
            return Some(Method::AccountLoginStart);
        }
        if same(name, "account/login/cancel") {
            return Some(Method::AccountLoginCancel);
        }
        if same(name, "account/logout") {
            return Some(Method::AccountLogout);
        }
        if same(name, "config/read") {
            return Some(Method::ConfigRead);
        }
        if same(name, "config/value/write") {
            return Some(Method::ConfigValueWrite);
        }
        if same(name, "config/batchWrite") {
            return Some(Method::ConfigBatchWrite);
        }
        if same(name, "configRequirements/read") {
            return Some(Method::ConfigRequirementsRead);
        }
        if same(name, "mcpServerStatus/list") {
            return Some(Method::McpServerStatusList);
        }
        if same(name, "config/mcpServer/reload") {
            return Some(Method::ConfigMcpServerReload);
        }
        if same(name, "mcpServer/oauth/login") {
            return Some(Method::McpServerOauthLogin);
        }
        if same(name, "skills/list") {
            return Some(Method::SkillsList);
        }
        if same(name, "skills/remote/list") {
            return Some(Method::SkillsRemoteList);
        }
        if same(name, "skills/remote/export") {
            return Some(Method::SkillsRemoteExport);
        }
        if same(name, "skills/config/write") {
            return Some(Method::SkillsConfigWrite);
        }
        if same(name, "command/exec") {
            return Some(Method::CommandExec);
        }
        if same(name, "command/exec/write") {
            return Some(Method::CommandExecWrite);
        }
        if same(name, "command/exec/terminate") {
            return Some(Method::CommandExecTerminate);
        }
        if same(name, "command/exec/resize") {
            return Some(Method::CommandExecResize);
        }
        if same(name, "mock/experimentalMethod") {
            return Some(Method::MockExperimentalMethod);
        }
        if same(name, "experimentalFeature/list") {
            return Some(Method::ExperimentalFeatureList);
        }
        if same(name, "collaborationMode/list") {
            return Some(Method::CollaborationModeList);
        }
        if same(name, "feedback/upload") {
            return Some(Method::FeedbackUpload);
        }
        assert forall|m: Method| #[trigger] m.name() != name@ by {
            match m {
                Method::ThreadStart => {},
                Method::ThreadResume => {},
                Method::ThreadFork => {},
                Method::ThreadArchive => {},
                Method::ThreadUnarchive => {},
                Method::ThreadNameSet => {},
                Method::ThreadCompactStart => {},
                Method::ThreadRollback => {},
                Method::ThreadList => {},
                Method::ThreadLoadedList => {},
                Method::ThreadRead => {},
                Method::ThreadTurnsList => {},
                Method::ThreadBackgroundTerminalsClean => {},
                Method::TurnStart => {},
                Method::TurnSteer => {},
                Method::TurnInterrupt => {},
                Method::ReviewStart => {},
                Method::ModelList => {},
                Method::AccountRead => {},
                Method::AccountRateLimitsRead => {},
                Method::AccountLoginStart => {},
                Method::AccountLoginCancel => {},
                Method::AccountLogout => {},
                Method::ConfigRead => {},
                Method::ConfigValueWrite => {},
                Method::ConfigBatchWrite => {},
                Method::ConfigRequirementsRead => {},
                Method::McpServerStatusList => {},
                Method::ConfigMcpServerReload => {},
                Method::McpServerOauthLogin => {},
                Method::SkillsList => {},
                Method::SkillsRemoteList => {},
                Method::SkillsRemoteExport => {},
                Method::SkillsConfigWrite => {},
                Method::CommandExec => {},
                Method::CommandExecWrite => {},
                Method::CommandExecTerminate => {},
                Method::CommandExecResize => {},
                Method::MockExperimentalMethod => {},
                Method::ExperimentalFeatureList => {},
                Method::CollaborationModeList => {},
                Method::FeedbackUpload => {},
            }
        }
        None
    }
}

/// A code that differs between methods: length and some characters of the name.
spec fn code(s: Seq<char>) -> (nat, char, char) {
    (s.len(), s[0], s[7])
}

/// No two methods have the same name, so each is found by its name.
pub proof fn law_method_names_differ(a: Method, b: Method)
    requires
        a.name() == b.name(),
    ensures
        a == b,
{
    reveal_strlit("thread/start");
    reveal_strlit("thread/resume");
    reveal_strlit("thread/fork");
    reveal_strlit("thread/archive");
    reveal_strlit("thread/unarchive");
    reveal_strlit("thread/name/set");
    reveal_strlit("thread/compact/start");
    reveal_strlit("thread/rollback");
    reveal_strlit("thread/list");
    reveal_strlit("thread/loaded/list");
    reveal_strlit("thread/read");
    reveal_strlit("thread/turns/list");
    reveal_strlit("thread/backgroundTerminals/clean");
    reveal_strlit("turn/start");
    reveal_strlit("turn/steer");
    reveal_strlit("turn/interrupt");
    reveal_strlit("review/start");
    reveal_strlit("model/list");
    reveal_strlit("account/read");
    reveal_strlit("account/rateLimits/read");
    reveal_strlit("account/login/start");
    reveal_strlit("account/login/cancel");
    reveal_strlit("account/logout");
    reveal_strlit("config/read");
    reveal_strlit("config/value/write");
    reveal_strlit("config/batchWrite");
    reveal_strlit("configRequirements/read");
    reveal_strlit("mcpServerStatus/list");
    reveal_strlit("config/mcpServer/reload");
    reveal_strlit("mcpServer/oauth/login");
    reveal_strlit("skills/list");
    reveal_strlit("skills/remote/list");
    reveal_strlit("skills/remote/export");
    reveal_strlit("skills/config/write");
    reveal_strlit("command/exec");
    reveal_strlit("command/exec/write");
    reveal_strlit("command/exec/terminate");
    reveal_strlit("command/exec/resize");
    reveal_strlit("mock/experimentalMethod");
    reveal_strlit("experimentalFeature/list");
    reveal_strlit("collaborationMode/list");
    reveal_strlit("feedback/upload");
    assert(code("thread/start"@) == (12nat, 't', 's'));
    assert(code("thread/resume"@) == (13nat, 't', 'r'));
    assert(code("thread/fork"@) == (11nat, 't', 'f'));
    assert(code("thread/archive"@) == (14nat, 't', 'a'));
    assert(code("thread/unarchive"@) == (16nat, 't', 'u'));
    assert(code("thread/name/set"@) == (15nat, 't', 'n'));
    assert(code("thread/compact/start"@) == (20nat, 't', 'c'));
    assert(code("thread/rollback"@) == (15nat, 't', 'r'));
    assert(code("thread/list"@) == (11nat, 't', 'l'));
    assert(code("thread/loaded/list"@) == (18nat, 't', 'l'));
    assert(code("thread/read"@) == (11nat, 't', 'r'));
    assert(code("thread/turns/list"@) == (17nat, 't', 't'));
    assert(code("thread/backgroundTerminals/clean"@) == (32nat, 't', 'b'));
    assert(code("turn/start"@) == (10nat, 't', 'a'));
    assert(code("turn/steer"@) == (10nat, 't', 'e'));
    assert(code("turn/interrupt"@) == (14nat, 't', 't'));
    assert(code("review/start"@) == (12nat, 'r', 's'));
    assert(code("model/list"@) == (10nat, 'm', 'i'));
    assert(code("account/read"@) == (12nat, 'a', '/'));
    assert(code("account/rateLimits/read"@) == (23nat, 'a', '/'));
    assert(code("account/login/start"@) == (19nat, 'a', '/'));
    assert(code("account/login/cancel"@) == (20nat, 'a', '/'));
    assert(code("account/logout"@) == (14nat, 'a', '/'));
    assert(code("config/read"@) == (11nat, 'c', 'r'));
    assert(code("config/value/write"@) == (18nat, 'c', 'v'));
    assert(code("config/batchWrite"@) == (17nat, 'c', 'b'));
    assert(code("configRequirements/read"@) == (23nat, 'c', 'e'));
    assert(code("mcpServerStatus/list"@) == (20nat, 'm', 'e'));
    assert(code("config/mcpServer/reload"@) == (23nat, 'c', 'm'));
    assert(code("mcpServer/oauth/login"@) == (21nat, 'm', 'e'));
    assert(code("skills/list"@) == (11nat, 's', 'l'));
    assert(code("skills/remote/list"@) == (18nat, 's', 'r'));
    assert(code("skills/remote/export"@) == (20nat, 's', 'r'));
    assert(code("skills/config/write"@) == (19nat, 's', 'c'));
    assert(code("command/exec"@) == (12nat, 'c', '/'));
    assert(code("command/exec/write"@) == (18nat, 'c', '/'));
    assert(code("command/exec/terminate"@) == (22nat, 'c', '/'));
    assert(code("command/exec/resize"@) == (19nat, 'c', '/'));
    assert(code("mock/experimentalMethod"@) == (23nat, 'm', 'p'));
    assert(code("experimentalFeature/list"@) == (24nat, 'e', 'e'));
    assert(code("collaborationMode/list"@) == (22nat, 'c', 'r'));
    assert(code("feedback/upload"@) == (15nat, 'f', 'k'));
}

} // verus!
