//! Laws of what clients are shown: each field of a thread, a turn and an attachment stands
//! under its own name.

use vstd::prelude::*;

use super::policy::{ApprovalV, SandboxMode, approval_json, attachment_json, sandbox_json};
use super::thread::{
    ItemV, ThreadV, TurnStatus, TurnV, fresh_turn, item_json, thread_model, turn_model,
};
use crate::json::{JsonV, opt_str};
use crate::text::tag;

verus! {

proof fn lemma_thread_keys()
    ensures
        tag("id"@) == (2nat, 'i', 'd'),
        tag("sessionId"@) == (9nat, 's', 'e'),
        tag("forkedFromId"@) == (12nat, 'f', 'o'),
        tag("preview"@) == (7nat, 'p', 'r'),
        tag("ephemeral"@) == (9nat, 'e', 'p'),
        tag("modelProvider"@) == (13nat, 'm', 'o'),
        tag("createdAt"@) == (9nat, 'c', 'r'),
        tag("updatedAt"@) == (9nat, 'u', 'p'),
        tag("status"@) == (6nat, 's', 't'),
        tag("path"@) == (4nat, 'p', 'a'),
        tag("cwd"@) == (3nat, 'c', 'w'),
        tag("cliVersion"@) == (10nat, 'c', 'l'),
        tag("source"@) == (6nat, 's', 'o'),
        tag("threadSource"@) == (12nat, 't', 'h'),
        tag("agentNickname"@) == (13nat, 'a', 'g'),
        tag("agentRole"@) == (9nat, 'a', 'g'),
        tag("gitInfo"@) == (7nat, 'g', 'i'),
        tag("name"@) == (4nat, 'n', 'a'),
        tag("turns"@) == (5nat, 't', 'u'),
{
    reveal_strlit("id");
    reveal_strlit("sessionId");
    reveal_strlit("forkedFromId");
    reveal_strlit("preview");
    reveal_strlit("ephemeral");
    reveal_strlit("modelProvider");
    reveal_strlit("createdAt");
    reveal_strlit("updatedAt");
    reveal_strlit("status");
    reveal_strlit("path");
    reveal_strlit("cwd");
    reveal_strlit("cliVersion");
    reveal_strlit("source");
    reveal_strlit("threadSource");
    reveal_strlit("agentNickname");
    reveal_strlit("agentRole");
    reveal_strlit("gitInfo");
    reveal_strlit("name");
    reveal_strlit("turns");
}

/// A thread is shown field by field: its id, its session, what it was forked from, its
/// times, its directory, its name, and its turns in order.
pub proof fn law_thread_is_shown(t: ThreadV)
    ensures
        thread_model(t).get("id"@) == Some(JsonV::Str(t.id)),
        thread_model(t).get("sessionId"@) == Some(JsonV::Str(t.session_id)),
        thread_model(t).get("forkedFromId"@) == Some(opt_str(t.forked_from_id)),
        thread_model(t).get("preview"@) == Some(JsonV::Str(t.preview)),
        thread_model(t).get("modelProvider"@) == Some(JsonV::Str(t.model_provider)),
        thread_model(t).get("createdAt"@) == Some(JsonV::Int(t.created_at as int)),
        thread_model(t).get("updatedAt"@) == Some(JsonV::Int(t.updated_at as int)),
        thread_model(t).get("path"@) == Some(opt_str(t.path)),
        thread_model(t).get("cwd"@) == Some(JsonV::Str(t.cwd)),
        thread_model(t).get("cliVersion"@) == Some(JsonV::Str(t.cli_version)),
        thread_model(t).get("name"@) == Some(opt_str(t.name)),
        thread_model(t).get("turns"@) == Some(JsonV::Arr(t.turns)),
{
    lemma_thread_keys();
}

proof fn lemma_turn_keys()
    ensures
        tag("id"@) == (2nat, 'i', 'd'),
        tag("items"@) == (5nat, 'i', 't'),
        tag("itemsView"@) == (9nat, 'i', 't'),
        tag("status"@) == (6nat, 's', 't'),
        tag("error"@) == (5nat, 'e', 'r'),
        tag("startedAt"@) == (9nat, 's', 't'),
        tag("completedAt"@) == (11nat, 'c', 'o'),
        tag("durationMs"@) == (10nat, 'd', 'u'),
{
    reveal_strlit("id");
    reveal_strlit("items");
    reveal_strlit("itemsView");
    reveal_strlit("status");
    reveal_strlit("error");
    reveal_strlit("startedAt");
    reveal_strlit("completedAt");
    reveal_strlit("durationMs");
}

/// A turn is shown field by field: its id, its items in order, its status by name, what
/// went wrong if anything did, and its times.
pub proof fn law_turn_is_shown(t: TurnV)
    ensures
        turn_model(t).get("id"@) == Some(JsonV::Str(t.id)),
        turn_model(t).get("items"@) is Some,
        turn_model(t).get("items"@)->Some_0 is Arr,
        turn_model(t).get("items"@)->Some_0->Arr_0.len() == t.items.len(),
        forall|i: int|
            0 <= i < t.items.len() ==> #[trigger] turn_model(t).get("items"@)->Some_0->Arr_0[i]
                == item_json(t.items[i]),
        turn_model(t).get("status"@) == Some(JsonV::Str(t.status.name())),
        t.error is None ==> turn_model(t).get("error"@) == Some(JsonV::Null),
        t.error matches Some(e) ==> turn_model(t).str_at2("error"@, "message"@) == Some(e),
        turn_model(t).get("startedAt"@) == Some(
            match t.started_at {
                Some(n) => JsonV::Int(n as int),
                None => JsonV::Null,
            },
        ),
        turn_model(t).get("completedAt"@) == Some(
            match t.completed_at {
                Some(n) => JsonV::Int(n as int),
                None => JsonV::Null,
            },
        ),
        turn_model(t).get("durationMs"@) == Some(
            match t.duration_ms {
                Some(n) => JsonV::Int(n as int),
                None => JsonV::Null,
            },
        ),
{
    lemma_turn_keys();
}

/// The three states of a turn are told apart by their names.
pub proof fn law_turn_status_names(a: TurnStatus, b: TurnStatus)
    ensures
        a.name() == b.name() ==> a == b,
        TurnStatus::Completed.name() == "completed"@,
        TurnStatus::Failed.name() == "failed"@,
        TurnStatus::InProgress.name() == "inProgress"@,
{
    reveal_strlit("completed");
    reveal_strlit("failed");
    reveal_strlit("inProgress");
    assert("completed"@.len() == 9 && "failed"@.len() == 6);
    assert("inProgress"@.len() == 10);
}

/// A turn that was just made has its id, its state and its start, and nothing else yet.
pub proof fn law_fresh_turn_is_empty(id: Seq<char>, status: TurnStatus, started_at: Option<i64>)
    ensures
        fresh_turn(id, status, started_at).id == id,
        fresh_turn(id, status, started_at).status == status,
        fresh_turn(id, status, started_at).started_at == started_at,
        fresh_turn(id, status, started_at).items.len() == 0,
        fresh_turn(id, status, started_at).error is None,
        fresh_turn(id, status, started_at).completed_at is None,
        fresh_turn(id, status, started_at).duration_ms is None,
{
}

proof fn lemma_attachment_keys()
    ensures
        tag("thread"@) == (6nat, 't', 'h'),
        tag("model"@) == (5nat, 'm', 'o'),
        tag("modelProvider"@) == (13nat, 'm', 'o'),
        tag("serviceTier"@) == (11nat, 's', 'e'),
        tag("cwd"@) == (3nat, 'c', 'w'),
        tag("instructionSources"@) == (18nat, 'i', 'n'),
        tag("approvalPolicy"@) == (14nat, 'a', 'p'),
        tag("approvalsReviewer"@) == (17nat, 'a', 'p'),
        tag("sandbox"@) == (7nat, 's', 'a'),
        tag("permissionProfile"@) == (17nat, 'p', 'e'),
        tag("activePermissionProfile"@) == (23nat, 'a', 'c'),
        tag("reasoningEffort"@) == (15nat, 'r', 'e'),
{
    reveal_strlit("thread");
    reveal_strlit("model");
    reveal_strlit("modelProvider");
    reveal_strlit("serviceTier");
    reveal_strlit("cwd");
    reveal_strlit("instructionSources");
    reveal_strlit("approvalPolicy");
    reveal_strlit("approvalsReviewer");
    reveal_strlit("sandbox");
    reveal_strlit("permissionProfile");
    reveal_strlit("activePermissionProfile");
    reveal_strlit("reasoningEffort");
}

/// A client that attaches is shown the thread and the settings that it runs with.
pub proof fn law_attachment_is_shown(
    thread: JsonV,
    model: Seq<char>,
    provider: Seq<char>,
    cwd: Seq<char>,
    approval: ApprovalV,
    reviewer: JsonV,
    sandbox: SandboxMode,
    profile: JsonV,
    effort: Seq<char>,
)
    ensures
        ({
            let j = attachment_json(
                thread,
                model,
                provider,
                cwd,
                approval,
                reviewer,
                sandbox,
                profile,
                effort,
            );
            &&& j.get("thread"@) == Some(thread)
            &&& j.get("model"@) == Some(JsonV::Str(model))
            &&& j.get("modelProvider"@) == Some(JsonV::Str(provider))
            &&& j.get("cwd"@) == Some(JsonV::Str(cwd))
            &&& j.get("approvalPolicy"@) == Some(approval_json(approval))
            &&& j.get("approvalsReviewer"@) == Some(reviewer)
            &&& j.get("sandbox"@) == Some(sandbox_json(sandbox))
            &&& j.get("permissionProfile"@) == Some(profile)
            &&& j.get("reasoningEffort"@) == Some(JsonV::Str(effort))
        }),
{
    lemma_attachment_keys();
}

/// An agent message is shown with its id and its text, and a message of the user with its
/// id and its parts in order.
pub proof fn law_items_are_shown(x: ItemV)
    ensures
        x matches ItemV::AgentMessage { id, text } ==> item_json(x).get("id"@) == Some(
            JsonV::Str(id),
        ) && item_json(x).get("text"@) == Some(JsonV::Str(text)) && item_json(x).get("type"@)
            == Some(JsonV::Str("agentMessage"@)),
        x matches ItemV::UserMessage { id, content } ==> item_json(x).get("id"@) == Some(
            JsonV::Str(id),
        ) && item_json(x).get("type"@) == Some(JsonV::Str("userMessage"@)) && (item_json(x).get(
            "content"@,
        ) matches Some(JsonV::Arr(a)) && a.len() == content.len()),
{
    reveal_strlit("id");
    reveal_strlit("type");
    reveal_strlit("text");
    reveal_strlit("content");
    assert("id"@.len() == 2 && "type"@.len() == 4 && "text"@.len() == 4);
    assert("content"@.len() == 7 && "type"@[1] == 'y' && "text"@[1] == 'e');
}

} // verus!
