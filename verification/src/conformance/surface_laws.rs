//! Laws of the surface of methods: what a request is probed with.

use vstd::prelude::*;

use super::fingerprint::{element_path, member_path};
use super::method_surface::probe_params;
use crate::json::JsonV;
use crate::text::tag;

verus! {

/// What tells the names of methods apart.
pub open spec fn mark(s: Seq<char>) -> (nat, char, char) {
    (s.len(), s[0], s[7])
}

proof fn lemma_methods()
    ensures
        mark("config/value/write"@) == (18nat, 'c', 'v'),
        mark("config/batchWrite"@) == (17nat, 'c', 'b'),
        mark("account/login/start"@) == (19nat, 'a', '/'),
        mark("account/login/cancel"@) == (20nat, 'a', '/'),
        mark("feedback/upload"@) == (15nat, 'f', 'k'),
        mark("mcpServer/oauth/login"@) == (21nat, 'm', 'e'),
        mark("skills/config/write"@) == (19nat, 's', 'c'),
        mark("command/exec"@) == (12nat, 'c', '/'),
        mark("command/exec/terminate"@) == (22nat, 'c', '/'),
        mark("command/exec/write"@) == (18nat, 'c', '/'),
        mark("command/exec/resize"@) == (19nat, 'c', '/'),
        mark("thread/start"@) == (12nat, 't', 's'),
        mark("thread/resume"@) == (13nat, 't', 'r'),
        mark("thread/archive"@) == (14nat, 't', 'a'),
        mark("thread/unarchive"@) == (16nat, 't', 'u'),
        mark("thread/compact/start"@) == (20nat, 't', 'c'),
        mark("thread/backgroundTerminals/clean"@) == (32nat, 't', 'b'),
        mark("thread/fork"@) == (11nat, 't', 'f'),
        mark("thread/name/set"@) == (15nat, 't', 'n'),
        mark("thread/rollback"@) == (15nat, 't', 'r'),
        mark("thread/list"@) == (11nat, 't', 'l'),
        mark("thread/read"@) == (11nat, 't', 'r'),
        mark("thread/turns/list"@) == (17nat, 't', 't'),
        mark("turn/start"@) == (10nat, 't', 'a'),
        mark("turn/steer"@) == (10nat, 't', 'e'),
        mark("turn/interrupt"@) == (14nat, 't', 't'),
        mark("review/start"@) == (12nat, 'r', 's'),
{
    reveal_strlit("config/value/write");
    reveal_strlit("config/batchWrite");
    reveal_strlit("account/login/start");
    reveal_strlit("account/login/cancel");
    reveal_strlit("feedback/upload");
    reveal_strlit("mcpServer/oauth/login");
    reveal_strlit("skills/config/write");
    reveal_strlit("command/exec");
    reveal_strlit("command/exec/terminate");
    reveal_strlit("command/exec/write");
    reveal_strlit("command/exec/resize");
    reveal_strlit("thread/start");
    reveal_strlit("thread/resume");
    reveal_strlit("thread/archive");
    reveal_strlit("thread/unarchive");
    reveal_strlit("thread/compact/start");
    reveal_strlit("thread/backgroundTerminals/clean");
    reveal_strlit("thread/fork");
    reveal_strlit("thread/name/set");
    reveal_strlit("thread/rollback");
    reveal_strlit("thread/list");
    reveal_strlit("thread/read");
    reveal_strlit("thread/turns/list");
    reveal_strlit("turn/start");
    reveal_strlit("turn/steer");
    reveal_strlit("turn/interrupt");
    reveal_strlit("review/start");
}

proof fn lemma_keys()
    ensures
        tag("keyPath"@) == (7nat, 'k', 'e'),
        tag("value"@) == (5nat, 'v', 'a'),
        tag("mergeStrategy"@) == (13nat, 'm', 'e'),
        tag("edits"@) == (5nat, 'e', 'd'),
        tag("type"@) == (4nat, 't', 'y'),
        tag("apiKey"@) == (6nat, 'a', 'p'),
        tag("loginId"@) == (7nat, 'l', 'o'),
        tag("classification"@) == (14nat, 'c', 'l'),
        tag("name"@) == (4nat, 'n', 'a'),
        tag("enabled"@) == (7nat, 'e', 'n'),
        tag("command"@) == (7nat, 'c', 'o'),
        tag("processId"@) == (9nat, 'p', 'r'),
        tag("deltaBase64"@) == (11nat, 'd', 'e'),
        tag("closeStdin"@) == (10nat, 'c', 'l'),
        tag("size"@) == (4nat, 's', 'i'),
        tag("rows"@) == (4nat, 'r', 'o'),
        tag("cols"@) == (4nat, 'c', 'o'),
        tag("cwd"@) == (3nat, 'c', 'w'),
        tag("approvalPolicy"@) == (14nat, 'a', 'p'),
        tag("sandbox"@) == (7nat, 's', 'a'),
        tag("threadId"@) == (8nat, 't', 'h'),
        tag("numTurns"@) == (8nat, 'n', 'u'),
        tag("archived"@) == (8nat, 'a', 'r'),
        tag("includeTurns"@) == (12nat, 'i', 'n'),
        tag("limit"@) == (5nat, 'l', 'i'),
        tag("input"@) == (5nat, 'i', 'n'),
        tag("text"@) == (4nat, 't', 'e'),
        tag("expectedTurnId"@) == (14nat, 'e', 'x'),
        tag("turnId"@) == (6nat, 't', 'u'),
        tag("target"@) == (6nat, 't', 'a'),
{
    reveal_strlit("keyPath");
    reveal_strlit("value");
    reveal_strlit("mergeStrategy");
    reveal_strlit("edits");
    reveal_strlit("type");
    reveal_strlit("apiKey");
    reveal_strlit("loginId");
    reveal_strlit("classification");
    reveal_strlit("name");
    reveal_strlit("enabled");
    reveal_strlit("command");
    reveal_strlit("processId");
    reveal_strlit("deltaBase64");
    reveal_strlit("closeStdin");
    reveal_strlit("size");
    reveal_strlit("rows");
    reveal_strlit("cols");
    reveal_strlit("cwd");
    reveal_strlit("approvalPolicy");
    reveal_strlit("sandbox");
    reveal_strlit("threadId");
    reveal_strlit("numTurns");
    reveal_strlit("archived");
    reveal_strlit("includeTurns");
    reveal_strlit("limit");
    reveal_strlit("input");
    reveal_strlit("text");
    reveal_strlit("expectedTurnId");
    reveal_strlit("turnId");
    reveal_strlit("target");
}

/// A request about a thread is probed with the thread at hand.
pub proof fn law_probes_name_the_thread(
    method: Seq<char>,
    thread_id: Seq<char>,
    turn_id: Seq<char>,
    process_id: Seq<char>,
    cwd: Seq<char>,
)
    requires
        method == "thread/resume"@
            || method == "thread/archive"@
            || method == "thread/unarchive"@
            || method == "thread/compact/start"@
            || method == "thread/backgroundTerminals/clean"@
            || method == "thread/fork"@
            || method == "thread/name/set"@
            || method == "thread/rollback"@
            || method == "thread/read"@
            || method == "thread/turns/list"@
            || method == "turn/start"@
            || method == "turn/steer"@
            || method == "turn/interrupt"@
            || method == "review/start"@,
    ensures
        probe_params(
            method,
            thread_id,
            turn_id,
            process_id,
            cwd,
        ).str_at("threadId"@) == Some(thread_id),
{
    lemma_methods();
    lemma_keys();
}

/// A request about a turn is probed with the turn at hand, a request about a process with
/// the process, and a request about a directory with the directory.
pub proof fn law_probes_name_what_they_are_about(
    method: Seq<char>,
    thread_id: Seq<char>,
    turn_id: Seq<char>,
    process_id: Seq<char>,
    cwd: Seq<char>,
)
    ensures
        method == "turn/steer"@ ==> probe_params(
            method,
            thread_id,
            turn_id,
            process_id,
            cwd,
        ).str_at("expectedTurnId"@) == Some(turn_id),
        method == "turn/interrupt"@ ==> probe_params(
            method,
            thread_id,
            turn_id,
            process_id,
            cwd,
        ).str_at("turnId"@) == Some(turn_id),
        method == "command/exec/terminate"@ || method == "command/exec/write"@ || method
            == "command/exec/resize"@ ==> probe_params(
            method,
            thread_id,
            turn_id,
            process_id,
            cwd,
        ).str_at("processId"@) == Some(
            process_id,
        ),
        method == "thread/start"@ || method == "thread/fork"@ || method == "thread/list"@
            ==> probe_params(
            method,
            thread_id,
            turn_id,
            process_id,
            cwd,
        ).str_at("cwd"@) == Some(cwd),
{
    lemma_methods();
    lemma_keys();
}

/// A probe asks no one for approval, takes back one turn at most, and lists what is not
/// archived.
pub proof fn law_probes_are_small(
    method: Seq<char>,
    thread_id: Seq<char>,
    turn_id: Seq<char>,
    process_id: Seq<char>,
    cwd: Seq<char>,
)
    ensures
        method == "thread/start"@ || method == "turn/start"@ ==> probe_params(
            method,
            thread_id,
            turn_id,
            process_id,
            cwd,
        ).str_at(
            "approvalPolicy"@,
        ) == Some("never"@),
        method == "thread/rollback"@ ==> probe_params(
            method,
            thread_id,
            turn_id,
            process_id,
            cwd,
        ).get("numTurns"@) == Some(
            JsonV::Int(1),
        ),
        method == "thread/turns/list"@ ==> probe_params(
            method,
            thread_id,
            turn_id,
            process_id,
            cwd,
        ).get("limit"@) == Some(
            JsonV::Int(1),
        ),
        method == "thread/list"@ ==> probe_params(
            method,
            thread_id,
            turn_id,
            process_id,
            cwd,
        ).get("archived"@) == Some(
            JsonV::Bool(false),
        ),
        method == "thread/read"@ ==> probe_params(
            method,
            thread_id,
            turn_id,
            process_id,
            cwd,
        ).get("includeTurns"@) == Some(
            JsonV::Bool(true),
        ),
        method == "command/exec/write"@ ==> probe_params(
            method,
            thread_id,
            turn_id,
            process_id,
            cwd,
        ).get("closeStdin"@) == Some(
            JsonV::Bool(false),
        ),
{
    lemma_methods();
    lemma_keys();
}

/// Every probe is an object.
pub proof fn law_probes_are_objects(
    method: Seq<char>,
    thread_id: Seq<char>,
    turn_id: Seq<char>,
    process_id: Seq<char>,
    cwd: Seq<char>,
)
    ensures
        probe_params(
            method,
            thread_id,
            turn_id,
            process_id,
            cwd,
        ) is Obj,
{
}

/// The path of a member is that of the object, a dot and its name, and the name alone at
/// the top; the elements of an array share one path.
pub proof fn law_paths_of_parts(prefix: Seq<char>, key: Seq<char>)
    ensures
        prefix.len() == 0 ==> member_path(prefix, key) == key,
        prefix.len() > 0 ==> member_path(prefix, key) == prefix + "."@ + key,
        element_path(prefix) == prefix + "[]"@,
{
}

} // verus!
