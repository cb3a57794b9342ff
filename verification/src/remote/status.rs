//! What is known of the remote control.

use vstd::prelude::*;

use crate::codex::notifications::{
    RemoteControlConnectionStatus, RemoteControlStatusChangedNotification,
};
use crate::json::{Json, JsonV};
use crate::text::{opt_copy, opt_text, owned};

verus! {

/// The state of the remote control.
#[derive(Debug, Clone, Copy, PartialEq, Eq, Structural)]
pub enum CodexRemoteControlState {
    Idle,
    Connecting,
    Disabled,
    Connected,
    Errored,
    Blocked,
    Stopped,
}

/// The state that a status of the connection stands for.
pub open spec fn state_of(status: RemoteControlConnectionStatus) -> CodexRemoteControlState {
    match status {
        RemoteControlConnectionStatus::Disabled => CodexRemoteControlState::Disabled,
        RemoteControlConnectionStatus::Connecting => CodexRemoteControlState::Connecting,
        RemoteControlConnectionStatus::Connected => CodexRemoteControlState::Connected,
        RemoteControlConnectionStatus::Errored => CodexRemoteControlState::Errored,
    }
}

impl From<RemoteControlConnectionStatus> for CodexRemoteControlState {
    fn from(value: RemoteControlConnectionStatus) -> (r: Self) {
        match value {
            RemoteControlConnectionStatus::Disabled => CodexRemoteControlState::Disabled,
            RemoteControlConnectionStatus::Connecting => CodexRemoteControlState::Connecting,
            RemoteControlConnectionStatus::Connected => CodexRemoteControlState::Connected,
            RemoteControlConnectionStatus::Errored => CodexRemoteControlState::Errored,
        }
    }
}

impl vstd::std_specs::convert::FromSpecImpl<RemoteControlConnectionStatus> for CodexRemoteControlState {
    open spec fn obeys_from_spec() -> bool {
        true
    }

    open spec fn from_spec(value: RemoteControlConnectionStatus) -> Self {
        state_of(value)
    }
}

impl CodexRemoteControlState {
    /// The name of a state.
    pub open spec fn name(self) -> Seq<char> {
        match self {
            CodexRemoteControlState::Idle => "idle"@,
            CodexRemoteControlState::Connecting => "connecting"@,
            CodexRemoteControlState::Disabled => "disabled"@,
            CodexRemoteControlState::Connected => "connected"@,
            CodexRemoteControlState::Errored => "errored"@,
            CodexRemoteControlState::Blocked => "blocked"@,
            CodexRemoteControlState::Stopped => "stopped"@,
        }
    }
}

/// The name of a state.
pub fn state_reason(state: CodexRemoteControlState) -> (r: &'static str)
    ensures
        r@ == state.name(),
{
    match state {
        CodexRemoteControlState::Idle => "idle",
        CodexRemoteControlState::Connecting => "connecting",
        CodexRemoteControlState::Disabled => "disabled",
        CodexRemoteControlState::Connected => "connected",
        CodexRemoteControlState::Errored => "errored",
        CodexRemoteControlState::Blocked => "blocked",
        CodexRemoteControlState::Stopped => "stopped",
    }
}

/// What is known of the remote control at some time.
#[derive(Debug)]
pub struct CodexRemoteControlSnapshot {
    pub state: CodexRemoteControlState,
    pub server_name: Option<String>,
    pub environment_id: Option<String>,
    pub last_update_unix_ms: Option<u64>,
    pub last_enable_reason: Option<String>,
    pub error: Option<String>,
    pub blocked: Option<String>,
}

/// The model of what is known.
#[verifier::ext_equal]
pub struct SnapshotV {
    pub state: CodexRemoteControlState,
    pub server_name: Option<Seq<char>>,
    pub environment_id: Option<Seq<char>>,
    pub last_update_unix_ms: Option<u64>,
    pub last_enable_reason: Option<Seq<char>>,
    pub error: Option<Seq<char>>,
    pub blocked: Option<Seq<char>>,
}

/// Nothing but a state is known.
pub open spec fn only_state(state: CodexRemoteControlState, now: Option<u64>) -> SnapshotV {
    SnapshotV {
        state,
        server_name: None,
        environment_id: None,
        last_update_unix_ms: now,
        last_enable_reason: None,
        error: None,
        blocked: None,
    }
}

/// What is known after the app server told its status.
pub open spec fn status_told(
    s: SnapshotV,
    status: RemoteControlConnectionStatus,
    server_name: Option<Seq<char>>,
    environment_id: Option<Seq<char>>,
    now: u64,
) -> SnapshotV {
    SnapshotV {
        state: state_of(status),
        server_name,
        environment_id,
        last_update_unix_ms: Some(now),
        last_enable_reason: s.last_enable_reason,
        error: None,
        blocked: None,
    }
}

impl Default for CodexRemoteControlSnapshot {
    fn default() -> (r: Self)
        ensures
            r.view() == only_state(CodexRemoteControlState::Idle, None),
    {
        CodexRemoteControlSnapshot {
            state: CodexRemoteControlState::Idle,
            server_name: None,
            environment_id: None,
            last_update_unix_ms: None,
            last_enable_reason: None,
            error: None,
            blocked: None,
        }
    }
}

/// A field that is left out where there is nothing to say.
pub open spec fn said_text(v: JsonV, key: Seq<char>, s: Option<Seq<char>>) -> JsonV {
    match s {
        Some(t) => v.with(key, JsonV::Str(t)),
        None => v,
    }
}

fn say_text(j: Json, key: &str, s: &Option<String>) -> (r: Json)
    requires
        j.view() is Obj,
    ensures
        r.view() == said_text(j.view(), key@, opt_text(*s)),
        r.view() is Obj,
{
    match s {
        Some(t) => j.with(key, Json::text(t.as_str())),
        None => j,
    }
}

/// What is known, on the wire.
pub open spec fn snapshot_json(s: SnapshotV) -> JsonV {
    let v = JsonV::object().with("state"@, JsonV::Str(s.state.name()));
    let v = said_text(v, "serverName"@, s.server_name);
    let v = said_text(v, "environmentId"@, s.environment_id);
    let v = match s.last_update_unix_ms {
        Some(t) => v.with("lastUpdateUnixMs"@, JsonV::Int(t as int)),
        None => v,
    };
    let v = said_text(v, "lastEnableReason"@, s.last_enable_reason);
    let v = said_text(v, "error"@, s.error);
    said_text(v, "blocked"@, s.blocked)
}

impl CodexRemoteControlSnapshot {
    /// The model of what is known.
    pub open spec fn view(&self) -> SnapshotV {
        SnapshotV {
            state: self.state,
            server_name: opt_text(self.server_name),
            environment_id: opt_text(self.environment_id),
            last_update_unix_ms: self.last_update_unix_ms,
            last_enable_reason: opt_text(self.last_enable_reason),
            error: opt_text(self.error),
            blocked: opt_text(self.blocked),
        }
    }

    /// A copy.
    pub fn copy(&self) -> (r: CodexRemoteControlSnapshot)
        ensures
            r.view() == self.view(),
    {
        CodexRemoteControlSnapshot {
            state: self.state,
            server_name: opt_copy(&self.server_name),
            environment_id: opt_copy(&self.environment_id),
            last_update_unix_ms: self.last_update_unix_ms,
            last_enable_reason: opt_copy(&self.last_enable_reason),
            error: opt_copy(&self.error),
            blocked: opt_copy(&self.blocked),
        }
    }

    fn of_state(state: CodexRemoteControlState, now: u64) -> (r: CodexRemoteControlSnapshot)
        ensures
            r.view() == only_state(state, Some(now)),
    {
        let mut r = CodexRemoteControlSnapshot::default();
        r.state = state;
        r.last_update_unix_ms = Some(now);
        r
    }

    /// A connection is being made.
    pub fn connecting(now: u64) -> (r: CodexRemoteControlSnapshot)
        ensures
            r.view() == only_state(CodexRemoteControlState::Connecting, Some(now)),
    {
        CodexRemoteControlSnapshot::of_state(CodexRemoteControlState::Connecting, now)
    }

    /// Supervision has ended.
    pub fn stopped(now: u64) -> (r: CodexRemoteControlSnapshot)
        ensures
            r.view() == only_state(CodexRemoteControlState::Stopped, Some(now)),
    {
        CodexRemoteControlSnapshot::of_state(CodexRemoteControlState::Stopped, now)
    }

    /// Something failed.
    pub fn error(message: &str, now: u64) -> (r: CodexRemoteControlSnapshot)
        ensures
            r.view() == (SnapshotV {
                error: Some(message@),
                ..only_state(CodexRemoteControlState::Errored, Some(now))
            }),
    {
        let mut r = CodexRemoteControlSnapshot::of_state(CodexRemoteControlState::Errored, now);
        r.error = Some(owned(message));
        r
    }

    /// The app server asks for what nobody here can give.
    pub fn blocked(message: &str, now: u64) -> (r: CodexRemoteControlSnapshot)
        ensures
            r.view() == (SnapshotV {
                blocked: Some(message@),
                ..only_state(CodexRemoteControlState::Blocked, Some(now))
            }),
    {
        let mut r = CodexRemoteControlSnapshot::of_state(CodexRemoteControlState::Blocked, now);
        r.blocked = Some(owned(message));
        r
    }

    /// Takes a status that the app server told.
    pub fn apply_status_changed(
        &mut self,
        params: &RemoteControlStatusChangedNotification,
        now: u64,
    )
        ensures
            final(self).view() == status_told(
                old(self).view(),
                params.status,
                opt_text(params.server_name),
                opt_text(params.environment_id),
                now,
            ),
    {
        self.state = CodexRemoteControlState::from(params.status);
        self.server_name = opt_copy(&params.server_name);
        self.environment_id = opt_copy(&params.environment_id);
        self.last_update_unix_ms = Some(now);
        self.error = None;
        self.blocked = None;
    }

    /// What is known, on the wire.
    pub fn to_json(&self) -> (j: Json)
        ensures
            j.view() == snapshot_json(self.view()),
    {
        let j = Json::object().with("state", Json::text(state_reason(self.state)));
        let j = say_text(j, "serverName", &self.server_name);
        let j = say_text(j, "environmentId", &self.environment_id);
        let j = match self.last_update_unix_ms {
            Some(t) => j.with("lastUpdateUnixMs", Json::Uint(t)),
            None => j,
        };
        let j = say_text(j, "lastEnableReason", &self.last_enable_reason);
        let j = say_text(j, "error", &self.error);
        say_text(j, "blocked", &self.blocked)
    }
}

} // verus!
