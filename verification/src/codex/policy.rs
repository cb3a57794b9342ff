//! Approval and sandbox settings of a thread.

use vstd::prelude::*;

use crate::json::{Json, JsonV, ToJson};

verus! {

/// When the agent asks before it acts.
#[derive(Debug, PartialEq)]
pub enum AskForApproval {
    Never,
    OnFailure,
    OnRequest,
    UnlessTrusted,
    /// Settings per kind of action, as they stand on the wire.
    Granular(Json),
}

/// The model of an approval setting.
pub enum ApprovalV {
    Never,
    OnFailure,
    OnRequest,
    UnlessTrusted,
    Granular(JsonV),
}

impl AskForApproval {
    /// The model of this setting.
    pub open spec fn view(&self) -> ApprovalV {
        match self {
            AskForApproval::Never => ApprovalV::Never,
            AskForApproval::OnFailure => ApprovalV::OnFailure,
            AskForApproval::OnRequest => ApprovalV::OnRequest,
            AskForApproval::UnlessTrusted => ApprovalV::UnlessTrusted,
            AskForApproval::Granular(j) => ApprovalV::Granular(j.view()),
        }
    }

    /// A copy of this setting.
    pub fn copy(&self) -> (r: AskForApproval)
        ensures
            r.view() == self.view(),
    {
        match self {
            AskForApproval::Never => AskForApproval::Never,
            AskForApproval::OnFailure => AskForApproval::OnFailure,
            AskForApproval::OnRequest => AskForApproval::OnRequest,
            AskForApproval::UnlessTrusted => AskForApproval::UnlessTrusted,
            AskForApproval::Granular(j) => AskForApproval::Granular(j.copy()),
        }
    }
}

/// The model of an optional approval setting.
pub open spec fn opt_approval(a: Option<AskForApproval>) -> Option<ApprovalV> {
    match a {
        Some(x) => Some(x.view()),
        None => None,
    }
}

/// The wire form of an approval setting.
pub open spec fn approval_json(a: ApprovalV) -> JsonV {
    match a {
        ApprovalV::Never => JsonV::Str("never"@),
        ApprovalV::OnFailure => JsonV::Str("on-failure"@),
        ApprovalV::OnRequest => JsonV::Str("on-request"@),
        ApprovalV::UnlessTrusted => JsonV::Str("untrusted"@),
        ApprovalV::Granular(v) => v,
    }
}

impl ToJson for AskForApproval {
    open spec fn json(&self) -> JsonV {
        approval_json(self.view())
    }

    fn to_json(&self) -> (j: Json) {
        match self {
            AskForApproval::Never => Json::text("never"),
            AskForApproval::OnFailure => Json::text("on-failure"),
            AskForApproval::OnRequest => Json::text("on-request"),
            AskForApproval::UnlessTrusted => Json::text("untrusted"),
            AskForApproval::Granular(v) => v.copy(),
        }
    }
}

/// What a command may touch.
#[derive(Clone, Copy, Debug, PartialEq, Eq, Structural)]
pub enum SandboxMode {
    ReadOnly,
    WorkspaceWrite,
    DangerFullAccess,
}

/// The wire form of a sandbox.
pub open spec fn sandbox_json(mode: SandboxMode) -> JsonV {
    JsonV::object().with(
        "type"@,
        JsonV::Str(
            match mode {
                SandboxMode::ReadOnly => "readOnly"@,
                SandboxMode::WorkspaceWrite => "workspaceWrite"@,
                SandboxMode::DangerFullAccess => "dangerFullAccess"@,
            },
        ),
    )
}

impl ToJson for SandboxMode {
    open spec fn json(&self) -> JsonV {
        sandbox_json(*self)
    }

    fn to_json(&self) -> (j: Json) {
        let name = match self {
            SandboxMode::ReadOnly => "readOnly",
            SandboxMode::WorkspaceWrite => "workspaceWrite",
            SandboxMode::DangerFullAccess => "dangerFullAccess",
        };
        Json::object().with("type", Json::text(name))
    }
}

/// What a client gets when it attaches to a thread.
pub struct Attachment {
    pub thread: Json,
    pub model: String,
    pub model_provider: String,
    pub cwd: String,
    pub approval_policy: AskForApproval,
    pub approvals_reviewer: Json,
    pub sandbox: SandboxMode,
    pub permission_profile: Json,
    pub reasoning_effort: String,
}

/// The wire form of an attachment.
pub open spec fn attachment_json(
    thread: JsonV,
    model: Seq<char>,
    model_provider: Seq<char>,
    cwd: Seq<char>,
    approval_policy: ApprovalV,
    approvals_reviewer: JsonV,
    sandbox: SandboxMode,
    permission_profile: JsonV,
    reasoning_effort: Seq<char>,
) -> JsonV {
    JsonV::object()
        .with("thread"@, thread)
        .with("model"@, JsonV::Str(model))
        .with("modelProvider"@, JsonV::Str(model_provider))
        .with("serviceTier"@, JsonV::Null)
        .with("cwd"@, JsonV::Str(cwd))
        .with("instructionSources"@, JsonV::Arr(seq![]))
        .with("approvalPolicy"@, approval_json(approval_policy))
        .with("approvalsReviewer"@, approvals_reviewer)
        .with("sandbox"@, sandbox_json(sandbox))
        .with("permissionProfile"@, permission_profile)
        .with("activePermissionProfile"@, JsonV::Null)
        .with("reasoningEffort"@, JsonV::Str(reasoning_effort))
}

impl ToJson for Attachment {
    open spec fn json(&self) -> JsonV {
        attachment_json(
            self.thread.view(),
            self.model@,
            self.model_provider@,
            self.cwd@,
            self.approval_policy.view(),
            self.approvals_reviewer.view(),
            self.sandbox,
            self.permission_profile.view(),
            self.reasoning_effort@,
        )
    }

    fn to_json(&self) -> (j: Json) {
        Json::object()
            .with("thread", self.thread.copy())
            .with("model", Json::text(self.model.as_str()))
            .with("modelProvider", Json::text(self.model_provider.as_str()))
            .with("serviceTier", Json::Null)
            .with("cwd", Json::text(self.cwd.as_str()))
            .with("instructionSources", Json::empty_array())
            .with("approvalPolicy", self.approval_policy.to_json())
            .with("approvalsReviewer", self.approvals_reviewer.copy())
            .with("sandbox", self.sandbox.to_json())
            .with("permissionProfile", self.permission_profile.copy())
            .with("activePermissionProfile", Json::Null)
            .with("reasoningEffort", Json::text(self.reasoning_effort.as_str()))
    }
}

} // verus!
