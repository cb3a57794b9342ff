//! Notifications and requests that a bridge sends to its client, and their wire
//! form.
//!
//! A notification travels as an object with its method name and its parameters.
//! Values whose inner structure the bridge does not read travel as plain JSON.

use vstd::prelude::*;

use super::thread::{ThreadItem, Turn, TurnError};
use crate::json::{
    Json, JsonV, ToJson, copy_all, jsons, lemma_array_view, list_model, list_to_json, opt_str,
    texts_json, texts_to_json,
};
use crate::text::{opt_text, same};

verus! {

/// State of the remote control connection.
#[derive(Clone, Copy, Debug, PartialEq, Eq, Structural)]
pub enum RemoteControlConnectionStatus {
    Disabled,
    Connecting,
    Connected,
    Errored,
}

impl RemoteControlConnectionStatus {
    /// The wire name.
    pub open spec fn name(self) -> Seq<char> {
        match self {
            RemoteControlConnectionStatus::Disabled => "disabled"@,
            RemoteControlConnectionStatus::Connecting => "connecting"@,
            RemoteControlConnectionStatus::Connected => "connected"@,
            RemoteControlConnectionStatus::Errored => "errored"@,
        }
    }

    /// The wire name.
    pub fn as_str(&self) -> (r: &'static str)
        ensures
            r@ == self.name(),
    {
        match self {
            RemoteControlConnectionStatus::Disabled => "disabled",
            RemoteControlConnectionStatus::Connecting => "connecting",
            RemoteControlConnectionStatus::Connected => "connected",
            RemoteControlConnectionStatus::Errored => "errored",
        }
    }
}

impl ToJson for RemoteControlConnectionStatus {
    open spec fn json(&self) -> JsonV {
        JsonV::Str(self.name())
    }

    fn to_json(&self) -> (j: Json) {
        Json::text(self.as_str())
    }
}

/// Progress of one step of a plan.
#[derive(Clone, Copy, Debug, PartialEq, Eq, Structural)]
pub enum TurnPlanStepStatus {
    Pending,
    InProgress,
    Completed,
}

impl TurnPlanStepStatus {
    /// The wire name.
    pub open spec fn name(self) -> Seq<char> {
        match self {
            TurnPlanStepStatus::Pending => "pending"@,
            TurnPlanStepStatus::InProgress => "inProgress"@,
            TurnPlanStepStatus::Completed => "completed"@,
        }
    }

    /// The wire name.
    pub fn as_str(&self) -> (r: &'static str)
        ensures
            r@ == self.name(),
    {
        match self {
            TurnPlanStepStatus::Pending => "pending",
            TurnPlanStepStatus::InProgress => "inProgress",
            TurnPlanStepStatus::Completed => "completed",
        }
    }
}

impl ToJson for TurnPlanStepStatus {
    open spec fn json(&self) -> JsonV {
        JsonV::Str(self.name())
    }

    fn to_json(&self) -> (j: Json) {
        Json::text(self.as_str())
    }
}

/// Startup state of a tool server.
#[derive(Clone, Copy, Debug, PartialEq, Eq, Structural)]
pub enum McpServerStartupState {
    Starting,
    Ready,
    Failed,
    Cancelled,
}

impl McpServerStartupState {
    /// The wire name.
    pub open spec fn name(self) -> Seq<char> {
        match self {
            McpServerStartupState::Starting => "starting"@,
            McpServerStartupState::Ready => "ready"@,
            McpServerStartupState::Failed => "failed"@,
            McpServerStartupState::Cancelled => "cancelled"@,
        }
    }

    /// The wire name.
    pub fn as_str(&self) -> (r: &'static str)
        ensures
            r@ == self.name(),
    {
        match self {
            McpServerStartupState::Starting => "starting",
            McpServerStartupState::Ready => "ready",
            McpServerStartupState::Failed => "failed",
            McpServerStartupState::Cancelled => "cancelled",
        }
    }
}

impl ToJson for McpServerStartupState {
    open spec fn json(&self) -> JsonV {
        JsonV::Str(self.name())
    }

    fn to_json(&self) -> (j: Json) {
        Json::text(self.as_str())
    }
}

/// A turn hit an error.
#[derive(Debug)]
pub struct ErrorNotification {
    pub error: TurnError,
    pub will_retry: bool,
    pub thread_id: String,
    pub turn_id: String,
}

impl ToJson for ErrorNotification {
    open spec fn json(&self) -> JsonV {
        JsonV::object()
            .with("error"@, self.error.json())
            .with("willRetry"@, JsonV::Bool(self.will_retry))
            .with("threadId"@, JsonV::Str(self.thread_id@))
            .with("turnId"@, JsonV::Str(self.turn_id@))
    }

    fn to_json(&self) -> (j: Json) {
        Json::object()
            .with("error", self.error.to_json())
            .with("willRetry", Json::Bool(self.will_retry))
            .with("threadId", Json::text(self.thread_id.as_str()))
            .with("turnId", Json::text(self.turn_id.as_str()))
    }
}

/// A thread was started or attached.
#[derive(Debug)]
pub struct ThreadStartedNotification {
    pub thread: Json,
}

impl ToJson for ThreadStartedNotification {
    open spec fn json(&self) -> JsonV {
        JsonV::object()
            .with("thread"@, self.thread.view())
    }

    fn to_json(&self) -> (j: Json) {
        Json::object()
            .with("thread", self.thread.copy())
    }
}

/// The status of a thread changed.
#[derive(Debug)]
pub struct ThreadStatusChangedNotification {
    pub thread_id: String,
    pub status: Json,
}

impl ToJson for ThreadStatusChangedNotification {
    open spec fn json(&self) -> JsonV {
        JsonV::object()
            .with("threadId"@, JsonV::Str(self.thread_id@))
            .with("status"@, self.status.view())
    }

    fn to_json(&self) -> (j: Json) {
        Json::object()
            .with("threadId", Json::text(self.thread_id.as_str()))
            .with("status", self.status.copy())
    }
}

/// Something happened to a thread that only its id tells.
#[derive(Debug)]
pub struct ThreadIdOnly {
    pub thread_id: String,
}

impl ToJson for ThreadIdOnly {
    open spec fn json(&self) -> JsonV {
        JsonV::object()
            .with("threadId"@, JsonV::Str(self.thread_id@))
    }

    fn to_json(&self) -> (j: Json) {
        Json::object()
            .with("threadId", Json::text(self.thread_id.as_str()))
    }
}

/// The set of skills changed.
#[derive(Debug)]
pub struct SkillsChangedNotification {
}

impl ToJson for SkillsChangedNotification {
    open spec fn json(&self) -> JsonV {
        JsonV::object()
    }

    fn to_json(&self) -> (j: Json) {
        Json::object()
    }
}

/// A thread was named or lost its name.
#[derive(Debug)]
pub struct ThreadNameUpdatedNotification {
    pub thread_id: String,
    pub thread_name: Option<String>,
}

impl ToJson for ThreadNameUpdatedNotification {
    open spec fn json(&self) -> JsonV {
        let v = JsonV::object()
            .with("threadId"@, JsonV::Str(self.thread_id@));
        match self.thread_name {
            Some(x) => v.with("threadName"@, JsonV::Str(x@)),
            None => v,
        }
    }

    fn to_json(&self) -> (j: Json) {
        let j = Json::object()
            .with("threadId", Json::text(self.thread_id.as_str()));
        match &self.thread_name {
            Some(x) => j.with("threadName", Json::text(x.as_str())),
            None => j,
        }
    }
}

/// The remote control connection changed state.
#[derive(Debug)]
pub struct RemoteControlStatusChangedNotification {
    pub status: RemoteControlConnectionStatus,
    pub server_name: Option<String>,
    pub environment_id: Option<String>,
}

impl ToJson for RemoteControlStatusChangedNotification {
    open spec fn json(&self) -> JsonV {
        let v = JsonV::object()
            .with("status"@, self.status.json())
            .with("environmentId"@, opt_str(opt_text(self.environment_id)));
        match self.server_name {
            Some(x) => v.with("serverName"@, JsonV::Str(x@)),
            None => v,
        }
    }

    fn to_json(&self) -> (j: Json) {
        let j = Json::object()
            .with("status", self.status.to_json())
            .with("environmentId", Json::opt_str(&self.environment_id));
        match &self.server_name {
            Some(x) => j.with("serverName", Json::text(x.as_str())),
            None => j,
        }
    }
}

/// The token usage of a thread changed.
#[derive(Debug)]
pub struct ThreadTokenUsageUpdatedNotification {
    pub thread_id: String,
    pub turn_id: String,
    pub token_usage: Json,
}

impl ToJson for ThreadTokenUsageUpdatedNotification {
    open spec fn json(&self) -> JsonV {
        JsonV::object()
            .with("threadId"@, JsonV::Str(self.thread_id@))
            .with("turnId"@, JsonV::Str(self.turn_id@))
            .with("tokenUsage"@, self.token_usage.view())
    }

    fn to_json(&self) -> (j: Json) {
        Json::object()
            .with("threadId", Json::text(self.thread_id.as_str()))
            .with("turnId", Json::text(self.turn_id.as_str()))
            .with("tokenUsage", self.token_usage.copy())
    }
}

/// A turn was started.
#[derive(Debug)]
pub struct TurnStartedNotification {
    pub thread_id: String,
    pub turn: Turn,
}

impl ToJson for TurnStartedNotification {
    open spec fn json(&self) -> JsonV {
        JsonV::object()
            .with("threadId"@, JsonV::Str(self.thread_id@))
            .with("turn"@, self.turn.json())
    }

    fn to_json(&self) -> (j: Json) {
        Json::object()
            .with("threadId", Json::text(self.thread_id.as_str()))
            .with("turn", self.turn.to_json())
    }
}

/// A turn came to its end.
#[derive(Debug)]
pub struct TurnCompletedNotification {
    pub thread_id: String,
    pub turn: Turn,
}

impl ToJson for TurnCompletedNotification {
    open spec fn json(&self) -> JsonV {
        JsonV::object()
            .with("threadId"@, JsonV::Str(self.thread_id@))
            .with("turn"@, self.turn.json())
    }

    fn to_json(&self) -> (j: Json) {
        Json::object()
            .with("threadId", Json::text(self.thread_id.as_str()))
            .with("turn", self.turn.to_json())
    }
}

/// The diff of a turn changed.
#[derive(Debug)]
pub struct TurnDiffUpdatedNotification {
    pub thread_id: String,
    pub turn_id: String,
    pub diff: String,
}

impl ToJson for TurnDiffUpdatedNotification {
    open spec fn json(&self) -> JsonV {
        JsonV::object()
            .with("threadId"@, JsonV::Str(self.thread_id@))
            .with("turnId"@, JsonV::Str(self.turn_id@))
            .with("diff"@, JsonV::Str(self.diff@))
    }

    fn to_json(&self) -> (j: Json) {
        Json::object()
            .with("threadId", Json::text(self.thread_id.as_str()))
            .with("turnId", Json::text(self.turn_id.as_str()))
            .with("diff", Json::text(self.diff.as_str()))
    }
}

/// The plan of a turn changed.
#[derive(Debug)]
pub struct TurnPlanUpdatedNotification {
    pub thread_id: String,
    pub turn_id: String,
    pub explanation: Option<String>,
    pub plan: Vec<TurnPlanStep>,
}

impl ToJson for TurnPlanUpdatedNotification {
    open spec fn json(&self) -> JsonV {
        let v = JsonV::object()
            .with("threadId"@, JsonV::Str(self.thread_id@))
            .with("turnId"@, JsonV::Str(self.turn_id@))
            .with("plan"@, list_model(self.plan@));
        match self.explanation {
            Some(x) => v.with("explanation"@, JsonV::Str(x@)),
            None => v,
        }
    }

    fn to_json(&self) -> (j: Json) {
        let j = Json::object()
            .with("threadId", Json::text(self.thread_id.as_str()))
            .with("turnId", Json::text(self.turn_id.as_str()))
            .with("plan", list_to_json(&self.plan));
        match &self.explanation {
            Some(x) => j.with("explanation", Json::text(x.as_str())),
            None => j,
        }
    }
}

/// One step of a plan.
#[derive(Debug)]
pub struct TurnPlanStep {
    pub step: String,
    pub status: TurnPlanStepStatus,
}

impl ToJson for TurnPlanStep {
    open spec fn json(&self) -> JsonV {
        JsonV::object()
            .with("step"@, JsonV::Str(self.step@))
            .with("status"@, self.status.json())
    }

    fn to_json(&self) -> (j: Json) {
        Json::object()
            .with("step", Json::text(self.step.as_str()))
            .with("status", self.status.to_json())
    }
}

/// An item of a turn was started.
#[derive(Debug)]
pub struct ItemStartedNotification {
    pub item: ThreadItem,
    pub thread_id: String,
    pub turn_id: String,
    pub parent_item_id: Option<String>,
}

impl ToJson for ItemStartedNotification {
    open spec fn json(&self) -> JsonV {
        let v = JsonV::object()
            .with("item"@, self.item.json())
            .with("threadId"@, JsonV::Str(self.thread_id@))
            .with("turnId"@, JsonV::Str(self.turn_id@));
        match self.parent_item_id {
            Some(x) => v.with("parentItemId"@, JsonV::Str(x@)),
            None => v,
        }
    }

    fn to_json(&self) -> (j: Json) {
        let j = Json::object()
            .with("item", self.item.to_json())
            .with("threadId", Json::text(self.thread_id.as_str()))
            .with("turnId", Json::text(self.turn_id.as_str()));
        match &self.parent_item_id {
            Some(x) => j.with("parentItemId", Json::text(x.as_str())),
            None => j,
        }
    }
}

/// An item of a turn is complete.
#[derive(Debug)]
pub struct ItemCompletedNotification {
    pub item: ThreadItem,
    pub thread_id: String,
    pub turn_id: String,
    pub parent_item_id: Option<String>,
}

impl ToJson for ItemCompletedNotification {
    open spec fn json(&self) -> JsonV {
        let v = JsonV::object()
            .with("item"@, self.item.json())
            .with("threadId"@, JsonV::Str(self.thread_id@))
            .with("turnId"@, JsonV::Str(self.turn_id@));
        match self.parent_item_id {
            Some(x) => v.with("parentItemId"@, JsonV::Str(x@)),
            None => v,
        }
    }

    fn to_json(&self) -> (j: Json) {
        let j = Json::object()
            .with("item", self.item.to_json())
            .with("threadId", Json::text(self.thread_id.as_str()))
            .with("turnId", Json::text(self.turn_id.as_str()));
        match &self.parent_item_id {
            Some(x) => j.with("parentItemId", Json::text(x.as_str())),
            None => j,
        }
    }
}

/// More text of an agent message.
#[derive(Debug)]
pub struct AgentMessageDeltaNotification {
    pub thread_id: String,
    pub turn_id: String,
    pub item_id: String,
    pub delta: String,
    pub parent_item_id: Option<String>,
}

impl ToJson for AgentMessageDeltaNotification {
    open spec fn json(&self) -> JsonV {
        let v = JsonV::object()
            .with("threadId"@, JsonV::Str(self.thread_id@))
            .with("turnId"@, JsonV::Str(self.turn_id@))
            .with("itemId"@, JsonV::Str(self.item_id@))
            .with("delta"@, JsonV::Str(self.delta@));
        match self.parent_item_id {
            Some(x) => v.with("parentItemId"@, JsonV::Str(x@)),
            None => v,
        }
    }

    fn to_json(&self) -> (j: Json) {
        let j = Json::object()
            .with("threadId", Json::text(self.thread_id.as_str()))
            .with("turnId", Json::text(self.turn_id.as_str()))
            .with("itemId", Json::text(self.item_id.as_str()))
            .with("delta", Json::text(self.delta.as_str()));
        match &self.parent_item_id {
            Some(x) => j.with("parentItemId", Json::text(x.as_str())),
            None => j,
        }
    }
}

/// More reasoning text.
#[derive(Debug)]
pub struct ReasoningTextDeltaNotification {
    pub thread_id: String,
    pub turn_id: String,
    pub item_id: String,
    pub delta: String,
    pub content_index: i64,
    pub parent_item_id: Option<String>,
}

impl ToJson for ReasoningTextDeltaNotification {
    open spec fn json(&self) -> JsonV {
        let v = JsonV::object()
            .with("threadId"@, JsonV::Str(self.thread_id@))
            .with("turnId"@, JsonV::Str(self.turn_id@))
            .with("itemId"@, JsonV::Str(self.item_id@))
            .with("delta"@, JsonV::Str(self.delta@))
            .with("contentIndex"@, JsonV::Int(self.content_index as int));
        match self.parent_item_id {
            Some(x) => v.with("parentItemId"@, JsonV::Str(x@)),
            None => v,
        }
    }

    fn to_json(&self) -> (j: Json) {
        let j = Json::object()
            .with("threadId", Json::text(self.thread_id.as_str()))
            .with("turnId", Json::text(self.turn_id.as_str()))
            .with("itemId", Json::text(self.item_id.as_str()))
            .with("delta", Json::text(self.delta.as_str()))
            .with("contentIndex", Json::Int(self.content_index));
        match &self.parent_item_id {
            Some(x) => j.with("parentItemId", Json::text(x.as_str())),
            None => j,
        }
    }
}

/// More text of a reasoning summary.
#[derive(Debug)]
pub struct ReasoningSummaryTextDeltaNotification {
    pub thread_id: String,
    pub turn_id: String,
    pub item_id: String,
    pub delta: String,
    pub summary_index: i64,
    pub parent_item_id: Option<String>,
}

impl ToJson for ReasoningSummaryTextDeltaNotification {
    open spec fn json(&self) -> JsonV {
        let v = JsonV::object()
            .with("threadId"@, JsonV::Str(self.thread_id@))
            .with("turnId"@, JsonV::Str(self.turn_id@))
            .with("itemId"@, JsonV::Str(self.item_id@))
            .with("delta"@, JsonV::Str(self.delta@))
            .with("summaryIndex"@, JsonV::Int(self.summary_index as int));
        match self.parent_item_id {
            Some(x) => v.with("parentItemId"@, JsonV::Str(x@)),
            None => v,
        }
    }

    fn to_json(&self) -> (j: Json) {
        let j = Json::object()
            .with("threadId", Json::text(self.thread_id.as_str()))
            .with("turnId", Json::text(self.turn_id.as_str()))
            .with("itemId", Json::text(self.item_id.as_str()))
            .with("delta", Json::text(self.delta.as_str()))
            .with("summaryIndex", Json::Int(self.summary_index));
        match &self.parent_item_id {
            Some(x) => j.with("parentItemId", Json::text(x.as_str())),
            None => j,
        }
    }
}

/// A reasoning summary got another part.
#[derive(Debug)]
pub struct ReasoningSummaryPartAddedNotification {
    pub thread_id: String,
    pub turn_id: String,
    pub item_id: String,
    pub summary_index: i64,
}

impl ToJson for ReasoningSummaryPartAddedNotification {
    open spec fn json(&self) -> JsonV {
        JsonV::object()
            .with("threadId"@, JsonV::Str(self.thread_id@))
            .with("turnId"@, JsonV::Str(self.turn_id@))
            .with("itemId"@, JsonV::Str(self.item_id@))
            .with("summaryIndex"@, JsonV::Int(self.summary_index as int))
    }

    fn to_json(&self) -> (j: Json) {
        Json::object()
            .with("threadId", Json::text(self.thread_id.as_str()))
            .with("turnId", Json::text(self.turn_id.as_str()))
            .with("itemId", Json::text(self.item_id.as_str()))
            .with("summaryIndex", Json::Int(self.summary_index))
    }
}

/// More output of a command item.
#[derive(Debug)]
pub struct CommandExecutionOutputDeltaNotification {
    pub thread_id: String,
    pub turn_id: String,
    pub item_id: String,
    pub delta: String,
    pub parent_item_id: Option<String>,
}

impl ToJson for CommandExecutionOutputDeltaNotification {
    open spec fn json(&self) -> JsonV {
        let v = JsonV::object()
            .with("threadId"@, JsonV::Str(self.thread_id@))
            .with("turnId"@, JsonV::Str(self.turn_id@))
            .with("itemId"@, JsonV::Str(self.item_id@))
            .with("delta"@, JsonV::Str(self.delta@));
        match self.parent_item_id {
            Some(x) => v.with("parentItemId"@, JsonV::Str(x@)),
            None => v,
        }
    }

    fn to_json(&self) -> (j: Json) {
        let j = Json::object()
            .with("threadId", Json::text(self.thread_id.as_str()))
            .with("turnId", Json::text(self.turn_id.as_str()))
            .with("itemId", Json::text(self.item_id.as_str()))
            .with("delta", Json::text(self.delta.as_str()));
        match &self.parent_item_id {
            Some(x) => j.with("parentItemId", Json::text(x.as_str())),
            None => j,
        }
    }
}

/// More output of a directly executed command.
#[derive(Debug)]
pub struct CommandExecOutputDeltaNotification {
    pub process_id: String,
    pub stream: Json,
    pub delta_base64: String,
    pub cap_reached: bool,
}

impl ToJson for CommandExecOutputDeltaNotification {
    open spec fn json(&self) -> JsonV {
        JsonV::object()
            .with("processId"@, JsonV::Str(self.process_id@))
            .with("stream"@, self.stream.view())
            .with("deltaBase64"@, JsonV::Str(self.delta_base64@))
            .with("capReached"@, JsonV::Bool(self.cap_reached))
    }

    fn to_json(&self) -> (j: Json) {
        Json::object()
            .with("processId", Json::text(self.process_id.as_str()))
            .with("stream", self.stream.copy())
            .with("deltaBase64", Json::text(self.delta_base64.as_str()))
            .with("capReached", Json::Bool(self.cap_reached))
    }
}

/// More output of a file change item.
#[derive(Debug)]
pub struct FileChangeOutputDeltaNotification {
    pub thread_id: String,
    pub turn_id: String,
    pub item_id: String,
    pub delta: String,
    pub parent_item_id: Option<String>,
}

impl ToJson for FileChangeOutputDeltaNotification {
    open spec fn json(&self) -> JsonV {
        let v = JsonV::object()
            .with("threadId"@, JsonV::Str(self.thread_id@))
            .with("turnId"@, JsonV::Str(self.turn_id@))
            .with("itemId"@, JsonV::Str(self.item_id@))
            .with("delta"@, JsonV::Str(self.delta@));
        match self.parent_item_id {
            Some(x) => v.with("parentItemId"@, JsonV::Str(x@)),
            None => v,
        }
    }

    fn to_json(&self) -> (j: Json) {
        let j = Json::object()
            .with("threadId", Json::text(self.thread_id.as_str()))
            .with("turnId", Json::text(self.turn_id.as_str()))
            .with("itemId", Json::text(self.item_id.as_str()))
            .with("delta", Json::text(self.delta.as_str()));
        match &self.parent_item_id {
            Some(x) => j.with("parentItemId", Json::text(x.as_str())),
            None => j,
        }
    }
}

/// The patch of a file change item changed.
#[derive(Debug)]
pub struct FileChangePatchUpdatedNotification {
    pub thread_id: String,
    pub turn_id: String,
    pub item_id: String,
    pub changes: Vec<Json>,
}

impl ToJson for FileChangePatchUpdatedNotification {
    open spec fn json(&self) -> JsonV {
        JsonV::object()
            .with("threadId"@, JsonV::Str(self.thread_id@))
            .with("turnId"@, JsonV::Str(self.turn_id@))
            .with("itemId"@, JsonV::Str(self.item_id@))
            .with("changes"@, JsonV::Arr(jsons(self.changes@)))
    }

    fn to_json(&self) -> (j: Json) {
        broadcast use lemma_array_view;

        Json::object()
            .with("threadId", Json::text(self.thread_id.as_str()))
            .with("turnId", Json::text(self.turn_id.as_str()))
            .with("itemId", Json::text(self.item_id.as_str()))
            .with("changes", Json::Array(copy_all(&self.changes)))
    }
}

/// A tool server changed its startup state.
#[derive(Debug)]
pub struct McpServerStatusUpdatedNotification {
    pub name: String,
    pub status: McpServerStartupState,
    pub error: Option<String>,
}

impl ToJson for McpServerStatusUpdatedNotification {
    open spec fn json(&self) -> JsonV {
        let v = JsonV::object()
            .with("name"@, JsonV::Str(self.name@))
            .with("status"@, self.status.json());
        match self.error {
            Some(x) => v.with("error"@, JsonV::Str(x@)),
            None => v,
        }
    }

    fn to_json(&self) -> (j: Json) {
        let j = Json::object()
            .with("name", Json::text(self.name.as_str()))
            .with("status", self.status.to_json());
        match &self.error {
            Some(x) => j.with("error", Json::text(x.as_str())),
            None => j,
        }
    }
}

/// The rate limit windows of the account moved.
#[derive(Debug)]
pub struct AccountRateLimitsUpdatedNotification {
    pub rate_limits: Json,
}

impl ToJson for AccountRateLimitsUpdatedNotification {
    open spec fn json(&self) -> JsonV {
        JsonV::object()
            .with("rateLimits"@, self.rate_limits.view())
    }

    fn to_json(&self) -> (j: Json) {
        Json::object()
            .with("rateLimits", self.rate_limits.copy())
    }
}

/// A tool call reports progress.
#[derive(Debug)]
pub struct McpToolCallProgressNotification {
    pub thread_id: String,
    pub turn_id: String,
    pub item_id: String,
    pub message: String,
    pub parent_item_id: Option<String>,
}

impl ToJson for McpToolCallProgressNotification {
    open spec fn json(&self) -> JsonV {
        let v = JsonV::object()
            .with("threadId"@, JsonV::Str(self.thread_id@))
            .with("turnId"@, JsonV::Str(self.turn_id@))
            .with("itemId"@, JsonV::Str(self.item_id@))
            .with("message"@, JsonV::Str(self.message@));
        match self.parent_item_id {
            Some(x) => v.with("parentItemId"@, JsonV::Str(x@)),
            None => v,
        }
    }

    fn to_json(&self) -> (j: Json) {
        let j = Json::object()
            .with("threadId", Json::text(self.thread_id.as_str()))
            .with("turnId", Json::text(self.turn_id.as_str()))
            .with("itemId", Json::text(self.item_id.as_str()))
            .with("message", Json::text(self.message.as_str()));
        match &self.parent_item_id {
            Some(x) => j.with("parentItemId", Json::text(x.as_str())),
            None => j,
        }
    }
}

/// More of the arguments of a tool call that is not classified.
#[derive(Debug)]
pub struct DynamicToolCallArgumentsDeltaNotification {
    pub thread_id: String,
    pub turn_id: String,
    pub item_id: String,
    pub delta: String,
    pub parent_item_id: Option<String>,
}

impl ToJson for DynamicToolCallArgumentsDeltaNotification {
    open spec fn json(&self) -> JsonV {
        let v = JsonV::object()
            .with("threadId"@, JsonV::Str(self.thread_id@))
            .with("turnId"@, JsonV::Str(self.turn_id@))
            .with("itemId"@, JsonV::Str(self.item_id@))
            .with("delta"@, JsonV::Str(self.delta@));
        match self.parent_item_id {
            Some(x) => v.with("parentItemId"@, JsonV::Str(x@)),
            None => v,
        }
    }

    fn to_json(&self) -> (j: Json) {
        let j = Json::object()
            .with("threadId", Json::text(self.thread_id.as_str()))
            .with("turnId", Json::text(self.turn_id.as_str()))
            .with("itemId", Json::text(self.item_id.as_str()))
            .with("delta", Json::text(self.delta.as_str()));
        match &self.parent_item_id {
            Some(x) => j.with("parentItemId", Json::text(x.as_str())),
            None => j,
        }
    }
}

/// The context of a thread was compacted.
#[derive(Debug)]
pub struct ContextCompactedNotification {
    pub thread_id: String,
    pub turn_id: String,
}

impl ToJson for ContextCompactedNotification {
    open spec fn json(&self) -> JsonV {
        JsonV::object()
            .with("threadId"@, JsonV::Str(self.thread_id@))
            .with("turnId"@, JsonV::Str(self.turn_id@))
    }

    fn to_json(&self) -> (j: Json) {
        Json::object()
            .with("threadId", Json::text(self.thread_id.as_str()))
            .with("turnId", Json::text(self.turn_id.as_str()))
    }
}

/// A turn goes on with another model.
#[derive(Debug)]
pub struct ModelReroutedNotification {
    pub thread_id: String,
    pub turn_id: String,
    pub from_model: String,
    pub to_model: String,
    pub reason: Json,
}

impl ToJson for ModelReroutedNotification {
    open spec fn json(&self) -> JsonV {
        JsonV::object()
            .with("threadId"@, JsonV::Str(self.thread_id@))
            .with("turnId"@, JsonV::Str(self.turn_id@))
            .with("fromModel"@, JsonV::Str(self.from_model@))
            .with("toModel"@, JsonV::Str(self.to_model@))
            .with("reason"@, self.reason.view())
    }

    fn to_json(&self) -> (j: Json) {
        Json::object()
            .with("threadId", Json::text(self.thread_id.as_str()))
            .with("turnId", Json::text(self.turn_id.as_str()))
            .with("fromModel", Json::text(self.from_model.as_str()))
            .with("toModel", Json::text(self.to_model.as_str()))
            .with("reason", self.reason.copy())
    }
}

/// A warning.
#[derive(Debug)]
pub struct WarningNotification {
    pub thread_id: Option<String>,
    pub message: String,
}

impl ToJson for WarningNotification {
    open spec fn json(&self) -> JsonV {
        let v = JsonV::object()
            .with("message"@, JsonV::Str(self.message@));
        match self.thread_id {
            Some(x) => v.with("threadId"@, JsonV::Str(x@)),
            None => v,
        }
    }

    fn to_json(&self) -> (j: Json) {
        let j = Json::object()
            .with("message", Json::text(self.message.as_str()));
        match &self.thread_id {
            Some(x) => j.with("threadId", Json::text(x.as_str())),
            None => j,
        }
    }
}

/// A warning about the configuration.
#[derive(Debug)]
pub struct ConfigWarningNotification {
    pub summary: String,
    pub details: Option<String>,
    pub path: Option<String>,
    pub range: Option<Json>,
}

impl ToJson for ConfigWarningNotification {
    open spec fn json(&self) -> JsonV {
        let v = JsonV::object()
            .with("summary"@, JsonV::Str(self.summary@));
        let v = match self.details {
            Some(x) => v.with("details"@, JsonV::Str(x@)),
            None => v,
        };
        let v = match self.path {
            Some(x) => v.with("path"@, JsonV::Str(x@)),
            None => v,
        };
        match self.range {
            Some(x) => v.with("range"@, x.view()),
            None => v,
        }
    }

    fn to_json(&self) -> (j: Json) {
        let j = Json::object()
            .with("summary", Json::text(self.summary.as_str()));
        let j = match &self.details {
            Some(x) => j.with("details", Json::text(x.as_str())),
            None => j,
        };
        let j = match &self.path {
            Some(x) => j.with("path", Json::text(x.as_str())),
            None => j,
        };
        match &self.range {
            Some(x) => j.with("range", x.copy()),
            None => j,
        }
    }
}

/// A feature is deprecated.
#[derive(Debug)]
pub struct DeprecationNoticeNotification {
    pub summary: String,
    pub details: Option<String>,
}

impl ToJson for DeprecationNoticeNotification {
    open spec fn json(&self) -> JsonV {
        let v = JsonV::object()
            .with("summary"@, JsonV::Str(self.summary@));
        match self.details {
            Some(x) => v.with("details"@, JsonV::Str(x@)),
            None => v,
        }
    }

    fn to_json(&self) -> (j: Json) {
        let j = Json::object()
            .with("summary", Json::text(self.summary.as_str()));
        match &self.details {
            Some(x) => j.with("details", Json::text(x.as_str())),
            None => j,
        }
    }
}

/// A request to the client was resolved.
#[derive(Debug)]
pub struct ServerRequestResolvedNotification {
    pub thread_id: String,
    pub request_id: Json,
}

impl ToJson for ServerRequestResolvedNotification {
    open spec fn json(&self) -> JsonV {
        JsonV::object()
            .with("threadId"@, JsonV::Str(self.thread_id@))
            .with("requestId"@, self.request_id.view())
    }

    fn to_json(&self) -> (j: Json) {
        Json::object()
            .with("threadId", Json::text(self.thread_id.as_str()))
            .with("requestId", self.request_id.copy())
    }
}

/// Questions that a tool puts to the user.
#[derive(Debug)]
pub struct ToolRequestUserInputParams {
    pub thread_id: String,
    pub turn_id: String,
    pub item_id: String,
    pub questions: Vec<ToolRequestUserInputQuestion>,
}

impl ToJson for ToolRequestUserInputParams {
    open spec fn json(&self) -> JsonV {
        JsonV::object()
            .with("threadId"@, JsonV::Str(self.thread_id@))
            .with("turnId"@, JsonV::Str(self.turn_id@))
            .with("itemId"@, JsonV::Str(self.item_id@))
            .with("questions"@, list_model(self.questions@))
    }

    fn to_json(&self) -> (j: Json) {
        Json::object()
            .with("threadId", Json::text(self.thread_id.as_str()))
            .with("turnId", Json::text(self.turn_id.as_str()))
            .with("itemId", Json::text(self.item_id.as_str()))
            .with("questions", list_to_json(&self.questions))
    }
}

/// One question to the user.
#[derive(Debug)]
pub struct ToolRequestUserInputQuestion {
    pub id: String,
    pub header: String,
    pub question: String,
    pub is_other: bool,
    pub is_secret: bool,
    pub options: Option<Vec<ToolRequestUserInputOption>>,
}

impl ToJson for ToolRequestUserInputQuestion {
    open spec fn json(&self) -> JsonV {
        let v = JsonV::object()
            .with("id"@, JsonV::Str(self.id@))
            .with("header"@, JsonV::Str(self.header@))
            .with("question"@, JsonV::Str(self.question@))
            .with("isOther"@, JsonV::Bool(self.is_other))
            .with("isSecret"@, JsonV::Bool(self.is_secret));
        match self.options {
            Some(x) => v.with("options"@, list_model(x@)),
            None => v,
        }
    }

    fn to_json(&self) -> (j: Json) {
        let j = Json::object()
            .with("id", Json::text(self.id.as_str()))
            .with("header", Json::text(self.header.as_str()))
            .with("question", Json::text(self.question.as_str()))
            .with("isOther", Json::Bool(self.is_other))
            .with("isSecret", Json::Bool(self.is_secret));
        match &self.options {
            Some(x) => j.with("options", list_to_json(x)),
            None => j,
        }
    }
}

/// One answer that a question offers.
#[derive(Debug)]
pub struct ToolRequestUserInputOption {
    pub label: String,
    pub description: String,
}

impl ToJson for ToolRequestUserInputOption {
    open spec fn json(&self) -> JsonV {
        JsonV::object()
            .with("label"@, JsonV::Str(self.label@))
            .with("description"@, JsonV::Str(self.description@))
    }

    fn to_json(&self) -> (j: Json) {
        Json::object()
            .with("label", Json::text(self.label.as_str()))
            .with("description", Json::text(self.description.as_str()))
    }
}

/// The answers to one question.
#[derive(Debug)]
pub struct ToolRequestUserInputAnswer {
    pub answers: Vec<String>,
}

impl ToJson for ToolRequestUserInputAnswer {
    open spec fn json(&self) -> JsonV {
        JsonV::object()
            .with("answers"@, texts_json(self.answers@))
    }

    fn to_json(&self) -> (j: Json) {
        Json::object()
            .with("answers", texts_to_json(&self.answers))
    }
}

/// A command waits for approval.
#[derive(Debug)]
pub struct CommandExecutionRequestApprovalParams {
    pub thread_id: String,
    pub turn_id: String,
    pub item_id: String,
    pub approval_id: Option<String>,
    pub reason: Option<String>,
    pub network_approval_context: Option<Json>,
    pub command: Option<String>,
    pub cwd: Option<String>,
    pub command_actions: Option<Vec<Json>>,
    pub additional_permissions: Option<Json>,
    pub proposed_execpolicy_amendment: Option<Json>,
    pub proposed_network_policy_amendments: Option<Vec<Json>>,
    pub available_decisions: Option<Vec<Json>>,
}

impl ToJson for CommandExecutionRequestApprovalParams {
    open spec fn json(&self) -> JsonV {
        let v = JsonV::object()
            .with("threadId"@, JsonV::Str(self.thread_id@))
            .with("turnId"@, JsonV::Str(self.turn_id@))
            .with("itemId"@, JsonV::Str(self.item_id@));
        let v = match self.approval_id {
            Some(x) => v.with("approvalId"@, JsonV::Str(x@)),
            None => v,
        };
        let v = match self.reason {
            Some(x) => v.with("reason"@, JsonV::Str(x@)),
            None => v,
        };
        let v = match self.network_approval_context {
            Some(x) => v.with("networkApprovalContext"@, x.view()),
            None => v,
        };
        let v = match self.command {
            Some(x) => v.with("command"@, JsonV::Str(x@)),
            None => v,
        };
        let v = match self.cwd {
            Some(x) => v.with("cwd"@, JsonV::Str(x@)),
            None => v,
        };
        let v = match self.command_actions {
            Some(x) => v.with("commandActions"@, JsonV::Arr(jsons(x@))),
            None => v,
        };
        let v = match self.additional_permissions {
            Some(x) => v.with("additionalPermissions"@, x.view()),
            None => v,
        };
        let v = match self.proposed_execpolicy_amendment {
            Some(x) => v.with("proposedExecpolicyAmendment"@, x.view()),
            None => v,
        };
        let v = match self.proposed_network_policy_amendments {
            Some(x) => v.with("proposedNetworkPolicyAmendments"@, JsonV::Arr(jsons(x@))),
            None => v,
        };
        match self.available_decisions {
            Some(x) => v.with("availableDecisions"@, JsonV::Arr(jsons(x@))),
            None => v,
        }
    }

    fn to_json(&self) -> (j: Json) {
        broadcast use lemma_array_view;

        let j = Json::object()
            .with("threadId", Json::text(self.thread_id.as_str()))
            .with("turnId", Json::text(self.turn_id.as_str()))
            .with("itemId", Json::text(self.item_id.as_str()));
        let j = match &self.approval_id {
            Some(x) => j.with("approvalId", Json::text(x.as_str())),
            None => j,
        };
        let j = match &self.reason {
            Some(x) => j.with("reason", Json::text(x.as_str())),
            None => j,
        };
        let j = match &self.network_approval_context {
            Some(x) => j.with("networkApprovalContext", x.copy()),
            None => j,
        };
        let j = match &self.command {
            Some(x) => j.with("command", Json::text(x.as_str())),
            None => j,
        };
        let j = match &self.cwd {
            Some(x) => j.with("cwd", Json::text(x.as_str())),
            None => j,
        };
        let j = match &self.command_actions {
            Some(x) => j.with("commandActions", Json::Array(copy_all(x))),
            None => j,
        };
        let j = match &self.additional_permissions {
            Some(x) => j.with("additionalPermissions", x.copy()),
            None => j,
        };
        let j = match &self.proposed_execpolicy_amendment {
            Some(x) => j.with("proposedExecpolicyAmendment", x.copy()),
            None => j,
        };
        let j = match &self.proposed_network_policy_amendments {
            Some(x) => j.with("proposedNetworkPolicyAmendments", Json::Array(copy_all(x))),
            None => j,
        };
        match &self.available_decisions {
            Some(x) => j.with("availableDecisions", Json::Array(copy_all(x))),
            None => j,
        }
    }
}

/// The decision on a command.
#[derive(Debug)]
pub struct CommandExecutionRequestApprovalResponse {
    pub decision: Json,
}

impl ToJson for CommandExecutionRequestApprovalResponse {
    open spec fn json(&self) -> JsonV {
        JsonV::object()
            .with("decision"@, self.decision.view())
    }

    fn to_json(&self) -> (j: Json) {
        Json::object()
            .with("decision", self.decision.copy())
    }
}

/// A file change waits for approval.
#[derive(Debug)]
pub struct FileChangeRequestApprovalParams {
    pub thread_id: String,
    pub turn_id: String,
    pub item_id: String,
    pub reason: Option<String>,
    pub grant_root: Option<String>,
}

impl ToJson for FileChangeRequestApprovalParams {
    open spec fn json(&self) -> JsonV {
        let v = JsonV::object()
            .with("threadId"@, JsonV::Str(self.thread_id@))
            .with("turnId"@, JsonV::Str(self.turn_id@))
            .with("itemId"@, JsonV::Str(self.item_id@));
        let v = match self.reason {
            Some(x) => v.with("reason"@, JsonV::Str(x@)),
            None => v,
        };
        match self.grant_root {
            Some(x) => v.with("grantRoot"@, JsonV::Str(x@)),
            None => v,
        }
    }

    fn to_json(&self) -> (j: Json) {
        let j = Json::object()
            .with("threadId", Json::text(self.thread_id.as_str()))
            .with("turnId", Json::text(self.turn_id.as_str()))
            .with("itemId", Json::text(self.item_id.as_str()));
        let j = match &self.reason {
            Some(x) => j.with("reason", Json::text(x.as_str())),
            None => j,
        };
        match &self.grant_root {
            Some(x) => j.with("grantRoot", Json::text(x.as_str())),
            None => j,
        }
    }
}

/// The decision on a file change.
#[derive(Debug)]
pub struct FileChangeRequestApprovalResponse {
    pub decision: Json,
}

impl ToJson for FileChangeRequestApprovalResponse {
    open spec fn json(&self) -> JsonV {
        JsonV::object()
            .with("decision"@, self.decision.view())
    }

    fn to_json(&self) -> (j: Json) {
        Json::object()
            .with("decision", self.decision.copy())
    }
}

/// The answers of the user, by question.
#[derive(Debug)]
pub struct ToolRequestUserInputResponse {
    pub answers: Vec<(String, ToolRequestUserInputAnswer)>,
}

/// The answers as the fields of an object.
pub open spec fn answers_json(s: Seq<(String, ToolRequestUserInputAnswer)>) -> JsonV
    decreases s.len(),
{
    if s.len() == 0 {
        JsonV::object()
    } else {
        answers_json(s.drop_last()).with(s.last().0@, s.last().1.json())
    }
}

impl ToJson for ToolRequestUserInputResponse {
    open spec fn json(&self) -> JsonV {
        JsonV::object().with("answers"@, answers_json(self.answers@))
    }

    fn to_json(&self) -> (j: Json) {
        let mut fields = Json::object();
        let mut i: usize = 0;
        while i < self.answers.len()
            invariant
                i <= self.answers@.len(),
                fields.view() == answers_json(self.answers@.take(i as int)),
            decreases self.answers@.len() - i,
        {
            assert(self.answers@.take(i + 1).drop_last() == self.answers@.take(i as int));
            let (name, answer) = &self.answers[i];
            fields = fields.with(name.as_str(), answer.to_json());
            i += 1;
        }
        assert(self.answers@.take(self.answers@.len() as int) == self.answers@);
        Json::object().with("answers", fields)
    }
}

/// A notification to the client.
#[derive(Debug)]
pub enum ServerNotification {
    Error(ErrorNotification),
    ThreadStarted(ThreadStartedNotification),
    ThreadStatusChanged(ThreadStatusChangedNotification),
    ThreadArchived(ThreadIdOnly),
    ThreadUnarchived(ThreadIdOnly),
    ThreadClosed(ThreadIdOnly),
    SkillsChanged(SkillsChangedNotification),
    ThreadNameUpdated(ThreadNameUpdatedNotification),
    ThreadGoalCleared(ThreadIdOnly),
    ThreadTokenUsageUpdated(ThreadTokenUsageUpdatedNotification),
    TurnStarted(TurnStartedNotification),
    TurnCompleted(TurnCompletedNotification),
    TurnDiffUpdated(TurnDiffUpdatedNotification),
    TurnPlanUpdated(TurnPlanUpdatedNotification),
    HookStarted(Json),
    HookCompleted(Json),
    ItemStarted(ItemStartedNotification),
    ItemCompleted(ItemCompletedNotification),
    AgentMessageDelta(AgentMessageDeltaNotification),
    ReasoningTextDelta(ReasoningTextDeltaNotification),
    ReasoningSummaryTextDelta(ReasoningSummaryTextDeltaNotification),
    ReasoningSummaryPartAdded(ReasoningSummaryPartAddedNotification),
    CommandExecutionOutputDelta(CommandExecutionOutputDeltaNotification),
    CommandExecOutputDelta(CommandExecOutputDeltaNotification),
    FileChangeOutputDelta(FileChangeOutputDeltaNotification),
    FileChangePatchUpdated(FileChangePatchUpdatedNotification),
    McpToolCallProgress(McpToolCallProgressNotification),
    McpServerStatusUpdated(McpServerStatusUpdatedNotification),
    AccountRateLimitsUpdated(AccountRateLimitsUpdatedNotification),
    RemoteControlStatusChanged(RemoteControlStatusChangedNotification),
    DynamicToolCallArgumentsDelta(DynamicToolCallArgumentsDeltaNotification),
    ContextCompacted(ContextCompactedNotification),
    ModelRerouted(ModelReroutedNotification),
    Warning(WarningNotification),
    ConfigWarning(ConfigWarningNotification),
    DeprecationNotice(DeprecationNoticeNotification),
    ServerRequestResolved(ServerRequestResolvedNotification),
    /// A notification that this list does not name; it is passed on as it is.
    Other { method: String, params: Json },
}

impl ServerNotification {
    /// The method name.
    pub open spec fn name(&self) -> Seq<char> {
        match self {
            ServerNotification::Error(_) => "error"@,
            ServerNotification::ThreadStarted(_) => "thread/started"@,
            ServerNotification::ThreadStatusChanged(_) => "thread/status/changed"@,
            ServerNotification::ThreadArchived(_) => "thread/archived"@,
            ServerNotification::ThreadUnarchived(_) => "thread/unarchived"@,
            ServerNotification::ThreadClosed(_) => "thread/closed"@,
            ServerNotification::SkillsChanged(_) => "skills/changed"@,
            ServerNotification::ThreadNameUpdated(_) => "thread/name/updated"@,
            ServerNotification::ThreadGoalCleared(_) => "thread/goal/cleared"@,
            ServerNotification::ThreadTokenUsageUpdated(_) => "thread/tokenUsage/updated"@,
            ServerNotification::TurnStarted(_) => "turn/started"@,
            ServerNotification::TurnCompleted(_) => "turn/completed"@,
            ServerNotification::TurnDiffUpdated(_) => "turn/diff/updated"@,
            ServerNotification::TurnPlanUpdated(_) => "turn/plan/updated"@,
            ServerNotification::HookStarted(_) => "hook/started"@,
            ServerNotification::HookCompleted(_) => "hook/completed"@,
            ServerNotification::ItemStarted(_) => "item/started"@,
            ServerNotification::ItemCompleted(_) => "item/completed"@,
            ServerNotification::AgentMessageDelta(_) => "item/agentMessage/delta"@,
            ServerNotification::ReasoningTextDelta(_) => "item/reasoning/textDelta"@,
            ServerNotification::ReasoningSummaryTextDelta(_) => "item/reasoning/summaryTextDelta"@,
            ServerNotification::ReasoningSummaryPartAdded(_) => "item/reasoning/summaryPartAdded"@,
            ServerNotification::CommandExecutionOutputDelta(_) => "item/commandExecution/outputDelta"@,
            ServerNotification::CommandExecOutputDelta(_) => "command/exec/outputDelta"@,
            ServerNotification::FileChangeOutputDelta(_) => "item/fileChange/outputDelta"@,
            ServerNotification::FileChangePatchUpdated(_) => "item/fileChange/patchUpdated"@,
            ServerNotification::McpToolCallProgress(_) => "item/mcpToolCall/progress"@,
            ServerNotification::McpServerStatusUpdated(_) => "mcpServer/startupStatus/updated"@,
            ServerNotification::AccountRateLimitsUpdated(_) => "account/rateLimits/updated"@,
            ServerNotification::RemoteControlStatusChanged(_) => "remoteControl/status/changed"@,
            ServerNotification::DynamicToolCallArgumentsDelta(_) => "item/dynamicToolCall/argumentsDelta"@,
            ServerNotification::ContextCompacted(_) => "thread/compacted"@,
            ServerNotification::ModelRerouted(_) => "model/rerouted"@,
            ServerNotification::Warning(_) => "warning"@,
            ServerNotification::ConfigWarning(_) => "configWarning"@,
            ServerNotification::DeprecationNotice(_) => "deprecationNotice"@,
            ServerNotification::ServerRequestResolved(_) => "serverRequest/resolved"@,
            ServerNotification::Other { method, .. } => method@,
        }
    }

    /// The parameters.
    pub open spec fn params_json(&self) -> JsonV {
        match self {
            ServerNotification::Error(p) => p.json(),
            ServerNotification::ThreadStarted(p) => p.json(),
            ServerNotification::ThreadStatusChanged(p) => p.json(),
            ServerNotification::ThreadArchived(p) => p.json(),
            ServerNotification::ThreadUnarchived(p) => p.json(),
            ServerNotification::ThreadClosed(p) => p.json(),
            ServerNotification::SkillsChanged(p) => p.json(),
            ServerNotification::ThreadNameUpdated(p) => p.json(),
            ServerNotification::ThreadGoalCleared(p) => p.json(),
            ServerNotification::ThreadTokenUsageUpdated(p) => p.json(),
            ServerNotification::TurnStarted(p) => p.json(),
            ServerNotification::TurnCompleted(p) => p.json(),
            ServerNotification::TurnDiffUpdated(p) => p.json(),
            ServerNotification::TurnPlanUpdated(p) => p.json(),
            ServerNotification::HookStarted(p) => p.view(),
            ServerNotification::HookCompleted(p) => p.view(),
            ServerNotification::ItemStarted(p) => p.json(),
            ServerNotification::ItemCompleted(p) => p.json(),
            ServerNotification::AgentMessageDelta(p) => p.json(),
            ServerNotification::ReasoningTextDelta(p) => p.json(),
            ServerNotification::ReasoningSummaryTextDelta(p) => p.json(),
            ServerNotification::ReasoningSummaryPartAdded(p) => p.json(),
            ServerNotification::CommandExecutionOutputDelta(p) => p.json(),
            ServerNotification::CommandExecOutputDelta(p) => p.json(),
            ServerNotification::FileChangeOutputDelta(p) => p.json(),
            ServerNotification::FileChangePatchUpdated(p) => p.json(),
            ServerNotification::McpToolCallProgress(p) => p.json(),
            ServerNotification::McpServerStatusUpdated(p) => p.json(),
            ServerNotification::AccountRateLimitsUpdated(p) => p.json(),
            ServerNotification::RemoteControlStatusChanged(p) => p.json(),
            ServerNotification::DynamicToolCallArgumentsDelta(p) => p.json(),
            ServerNotification::ContextCompacted(p) => p.json(),
            ServerNotification::ModelRerouted(p) => p.json(),
            ServerNotification::Warning(p) => p.json(),
            ServerNotification::ConfigWarning(p) => p.json(),
            ServerNotification::DeprecationNotice(p) => p.json(),
            ServerNotification::ServerRequestResolved(p) => p.json(),
            ServerNotification::Other { params, .. } => params.view(),
        }
    }

    /// The method name.
    pub fn method(&self) -> (r: &str)
        ensures
            r@ == self.name(),
    {
        match self {
            ServerNotification::Error(_) => "error",
            ServerNotification::ThreadStarted(_) => "thread/started",
            ServerNotification::ThreadStatusChanged(_) => "thread/status/changed",
            ServerNotification::ThreadArchived(_) => "thread/archived",
            ServerNotification::ThreadUnarchived(_) => "thread/unarchived",
            ServerNotification::ThreadClosed(_) => "thread/closed",
            ServerNotification::SkillsChanged(_) => "skills/changed",
            ServerNotification::ThreadNameUpdated(_) => "thread/name/updated",
            ServerNotification::ThreadGoalCleared(_) => "thread/goal/cleared",
            ServerNotification::ThreadTokenUsageUpdated(_) => "thread/tokenUsage/updated",
            ServerNotification::TurnStarted(_) => "turn/started",
            ServerNotification::TurnCompleted(_) => "turn/completed",
            ServerNotification::TurnDiffUpdated(_) => "turn/diff/updated",
            ServerNotification::TurnPlanUpdated(_) => "turn/plan/updated",
            ServerNotification::HookStarted(_) => "hook/started",
            ServerNotification::HookCompleted(_) => "hook/completed",
            ServerNotification::ItemStarted(_) => "item/started",
            ServerNotification::ItemCompleted(_) => "item/completed",
            ServerNotification::AgentMessageDelta(_) => "item/agentMessage/delta",
            ServerNotification::ReasoningTextDelta(_) => "item/reasoning/textDelta",
            ServerNotification::ReasoningSummaryTextDelta(_) => "item/reasoning/summaryTextDelta",
            ServerNotification::ReasoningSummaryPartAdded(_) => "item/reasoning/summaryPartAdded",
            ServerNotification::CommandExecutionOutputDelta(_) => "item/commandExecution/outputDelta",
            ServerNotification::CommandExecOutputDelta(_) => "command/exec/outputDelta",
            ServerNotification::FileChangeOutputDelta(_) => "item/fileChange/outputDelta",
            ServerNotification::FileChangePatchUpdated(_) => "item/fileChange/patchUpdated",
            ServerNotification::McpToolCallProgress(_) => "item/mcpToolCall/progress",
            ServerNotification::McpServerStatusUpdated(_) => "mcpServer/startupStatus/updated",
            ServerNotification::AccountRateLimitsUpdated(_) => "account/rateLimits/updated",
            ServerNotification::RemoteControlStatusChanged(_) => "remoteControl/status/changed",
            ServerNotification::DynamicToolCallArgumentsDelta(_) => "item/dynamicToolCall/argumentsDelta",
            ServerNotification::ContextCompacted(_) => "thread/compacted",
            ServerNotification::ModelRerouted(_) => "model/rerouted",
            ServerNotification::Warning(_) => "warning",
            ServerNotification::ConfigWarning(_) => "configWarning",
            ServerNotification::DeprecationNotice(_) => "deprecationNotice",
            ServerNotification::ServerRequestResolved(_) => "serverRequest/resolved",
            ServerNotification::Other { method, .. } => method.as_str(),
        }
    }

    /// The parameters.
    pub fn params(&self) -> (j: Json)
        ensures
            j.view() == self.params_json(),
    {
        match self {
            ServerNotification::Error(p) => p.to_json(),
            ServerNotification::ThreadStarted(p) => p.to_json(),
            ServerNotification::ThreadStatusChanged(p) => p.to_json(),
            ServerNotification::ThreadArchived(p) => p.to_json(),
            ServerNotification::ThreadUnarchived(p) => p.to_json(),
            ServerNotification::ThreadClosed(p) => p.to_json(),
            ServerNotification::SkillsChanged(p) => p.to_json(),
            ServerNotification::ThreadNameUpdated(p) => p.to_json(),
            ServerNotification::ThreadGoalCleared(p) => p.to_json(),
            ServerNotification::ThreadTokenUsageUpdated(p) => p.to_json(),
            ServerNotification::TurnStarted(p) => p.to_json(),
            ServerNotification::TurnCompleted(p) => p.to_json(),
            ServerNotification::TurnDiffUpdated(p) => p.to_json(),
            ServerNotification::TurnPlanUpdated(p) => p.to_json(),
            ServerNotification::HookStarted(p) => p.copy(),
            ServerNotification::HookCompleted(p) => p.copy(),
            ServerNotification::ItemStarted(p) => p.to_json(),
            ServerNotification::ItemCompleted(p) => p.to_json(),
            ServerNotification::AgentMessageDelta(p) => p.to_json(),
            ServerNotification::ReasoningTextDelta(p) => p.to_json(),
            ServerNotification::ReasoningSummaryTextDelta(p) => p.to_json(),
            ServerNotification::ReasoningSummaryPartAdded(p) => p.to_json(),
            ServerNotification::CommandExecutionOutputDelta(p) => p.to_json(),
            ServerNotification::CommandExecOutputDelta(p) => p.to_json(),
            ServerNotification::FileChangeOutputDelta(p) => p.to_json(),
            ServerNotification::FileChangePatchUpdated(p) => p.to_json(),
            ServerNotification::McpToolCallProgress(p) => p.to_json(),
            ServerNotification::McpServerStatusUpdated(p) => p.to_json(),
            ServerNotification::AccountRateLimitsUpdated(p) => p.to_json(),
            ServerNotification::RemoteControlStatusChanged(p) => p.to_json(),
            ServerNotification::DynamicToolCallArgumentsDelta(p) => p.to_json(),
            ServerNotification::ContextCompacted(p) => p.to_json(),
            ServerNotification::ModelRerouted(p) => p.to_json(),
            ServerNotification::Warning(p) => p.to_json(),
            ServerNotification::ConfigWarning(p) => p.to_json(),
            ServerNotification::DeprecationNotice(p) => p.to_json(),
            ServerNotification::ServerRequestResolved(p) => p.to_json(),
            ServerNotification::Other { params, .. } => params.copy(),
        }
    }
}

impl ToJson for ServerNotification {
    open spec fn json(&self) -> JsonV {
        JsonV::object().with("method"@, JsonV::Str(self.name())).with(
            "params"@,
            self.params_json(),
        )
    }

    fn to_json(&self) -> (j: Json) {
        Json::object().with("method", Json::text(self.method())).with("params", self.params())
    }
}

/// The connection status of a given wire name.
pub open spec fn connection_status_named(name: Seq<char>) -> Option<RemoteControlConnectionStatus> {
    if name == "disabled"@ {
        Some(RemoteControlConnectionStatus::Disabled)
    } else if name == "connecting"@ {
        Some(RemoteControlConnectionStatus::Connecting)
    } else if name == "connected"@ {
        Some(RemoteControlConnectionStatus::Connected)
    } else if name == "errored"@ {
        Some(RemoteControlConnectionStatus::Errored)
    } else {
        None
    }
}

impl RemoteControlConnectionStatus {
    /// Finds a connection status by its wire name.
    pub fn from_str(name: &str) -> (r: Option<RemoteControlConnectionStatus>)
        ensures
            r == connection_status_named(name@),
    {
        if same(name, "disabled") {
            Some(RemoteControlConnectionStatus::Disabled)
        } else if same(name, "connecting") {
            Some(RemoteControlConnectionStatus::Connecting)
        } else if same(name, "connected") {
            Some(RemoteControlConnectionStatus::Connected)
        } else if same(name, "errored") {
            Some(RemoteControlConnectionStatus::Errored)
        } else {
            None
        }
    }
}

} // verus!
