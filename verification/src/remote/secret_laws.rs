//! Laws of secrets and words: what is kept out of logs, how a connection introduces
//! itself, and how failures are told.

use vstd::prelude::*;

use super::auth::{AuthError, AuthV, auth_error_text, tokens_in, tokens_of};
use super::jsonrpc::{is_secret, redacted};
use super::status::SnapshotV;
use super::supervisor::{
    CodexRemoteControlConfig, answer_result, initialize_params, introduces, reason_for,
};
use crate::codex::notifications::{RemoteControlConnectionStatus, connection_status_named};
use crate::json::JsonV;
use crate::json_text::parsed;
use crate::launch::paths::same_path;
use crate::text::{ascii_lowered, begins, decimal_int, ends, has_text, tag};

verus! {

// ---------------------------------------------------------------------------
// Secrets
// ---------------------------------------------------------------------------
/// A field is secret exactly if its name speaks of a token, a secret or an authorization,
/// in letters of either case.
pub proof fn law_names_of_secrets(name: Seq<char>)
    ensures
        has_text(ascii_lowered(name), "token"@) ==> is_secret(name),
        has_text(ascii_lowered(name), "secret"@) ==> is_secret(name),
        has_text(ascii_lowered(name), "authorization"@) ==> is_secret(name),
        is_secret(name) ==> has_text(ascii_lowered(name), "token"@) || has_text(
            ascii_lowered(name),
            "secret"@,
        ) || has_text(ascii_lowered(name), "authorization"@),
{
}

/// Only the values of secret fields are replaced; everything else is shown as it is, and
/// no field or element is lost.
pub proof fn law_only_secrets_are_replaced(v: JsonV, key: Seq<char>, i: int)
    ensures
        v matches JsonV::Obj(m) ==> m.dom().contains(key) && is_secret(key) ==> redacted(v).get(key)
            == Some(JsonV::Str("<redacted>"@)),
        v matches JsonV::Obj(m) ==> m.dom().contains(key) && !is_secret(key) ==> redacted(v).get(
            key,
        ) == Some(redacted(m[key])),
        v matches JsonV::Obj(m) ==> !m.dom().contains(key) ==> redacted(v).get(key) is None,
        v matches JsonV::Arr(a) ==> 0 <= i < a.len() ==> (redacted(v) matches JsonV::Arr(b)
            && b.len() == a.len() && b[i] == redacted(a[i])),
        !(v is Obj) && !(v is Arr) ==> redacted(v) == v,
{
}

// ---------------------------------------------------------------------------
// Introductions
// ---------------------------------------------------------------------------
proof fn lemma_introduction_keys()
    ensures
        tag("clientInfo"@) == (10nat, 'c', 'l'),
        tag("name"@) == (4nat, 'n', 'a'),
        tag("title"@) == (5nat, 't', 'i'),
        tag("version"@) == (7nat, 'v', 'e'),
        tag("capabilities"@) == (12nat, 'c', 'a'),
        tag("experimentalApi"@) == (15nat, 'e', 'x'),
{
    reveal_strlit("clientInfo");
    reveal_strlit("name");
    reveal_strlit("title");
    reveal_strlit("version");
    reveal_strlit("capabilities");
    reveal_strlit("experimentalApi");
}

/// A connection introduces itself as the desktop application and asks for what is
/// experimental.
pub proof fn law_connections_introduce_themselves()
    ensures
        initialize_params().str_at2("clientInfo"@, "name"@) == Some("codex-backend"@),
        initialize_params().str_at2("clientInfo"@, "title"@) == Some("Codex Desktop"@),
        initialize_params().str_at2("clientInfo"@, "version"@) == Some("unknown"@),
        initialize_params().get2("capabilities"@, "experimentalApi"@) == Some(JsonV::Bool(true)),
{
    lemma_introduction_keys();
}

/// The app server introduces itself with its agent, its home and its platform, all of
/// them texts.
pub proof fn law_introductions_are_complete(v: JsonV)
    ensures
        introduces(v) <==> {
            &&& v.get("userAgent"@) matches Some(JsonV::Str(_))
            &&& v.get("codexHome"@) matches Some(JsonV::Str(_))
            &&& v.get("platformFamily"@) matches Some(JsonV::Str(_))
            &&& v.get("platformOs"@) matches Some(JsonV::Str(_))
        },
{
}

/// An answer with an error fails with its code and its words; one without gives its
/// result, and an empty object if there is none.
pub proof fn law_answers_come_to_their_result(
    result: Option<JsonV>,
    code: i64,
    message: Seq<char>,
)
    ensures
        answer_result(result, Some((code, message))) == Err::<JsonV, Seq<char>>(
            "json-rpc error "@ + decimal_int(code as int) + (": "@ + message),
        ),
        result matches Some(v) ==> answer_result(result, None) == Ok::<JsonV, Seq<char>>(v),
        result is None ==> answer_result(result, None) == Ok::<JsonV, Seq<char>>(JsonV::object()),
{
}

/// The remote control is switched on because no status is there, because the status is
/// old, or because of the status itself.
pub proof fn law_reasons_for_switching_on(s: SnapshotV, is_old: bool)
    ensures
        s.last_update_unix_ms is None ==> reason_for(s, is_old) == "missing-status"@,
        s.last_update_unix_ms is Some && is_old ==> begins(reason_for(s, is_old), "stale-status:"@),
        s.last_update_unix_ms is Some && !is_old ==> begins(reason_for(s, is_old), "status:"@),
        s.last_update_unix_ms is Some ==> ends(reason_for(s, is_old), s.state.name()),
{
    let stale = "stale-status:"@ + s.state.name();
    let plain = "status:"@ + s.state.name();
    assert(stale.take("stale-status:"@.len() as int) =~= "stale-status:"@);
    assert(plain.take("status:"@.len() as int) =~= "status:"@);
    assert(stale.skip(stale.len() - s.state.name().len()) =~= s.state.name());
    assert(plain.skip(plain.len() - s.state.name().len()) =~= s.state.name());
}

/// Two configurations are the same exactly if their places and their tuning are.
pub proof fn law_same_configurations(
    a: CodexRemoteControlConfig,
    b: CodexRemoteControlConfig,
    windows: bool,
)
    ensures
        a.agrees(b, windows) <==> same_path(a.socket_path@, b.socket_path@, windows) && same_path(
            a.auth_path@,
            b.auth_path@,
            windows,
        ) && a.tuning == b.tuning,
        a.agrees(a, windows),
        a.agrees(b, windows) ==> b.agrees(a, windows),
{
}

// ---------------------------------------------------------------------------
// Statuses and tokens
// ---------------------------------------------------------------------------
proof fn lemma_status_names()
    ensures
        tag("disabled"@) == (8nat, 'd', 'i'),
        tag("connecting"@) == (10nat, 'c', 'o'),
        tag("connected"@) == (9nat, 'c', 'o'),
        tag("errored"@) == (7nat, 'e', 'r'),
{
    reveal_strlit("disabled");
    reveal_strlit("connecting");
    reveal_strlit("connected");
    reveal_strlit("errored");
}

/// A status goes by one name, and any other name is no status.
pub proof fn law_statuses_go_by_their_name(name: Seq<char>)
    ensures
        connection_status_named(name) == Some(RemoteControlConnectionStatus::Disabled) <==> name
            == "disabled"@,
        connection_status_named(name) == Some(RemoteControlConnectionStatus::Connecting) <==> name
            == "connecting"@,
        connection_status_named(name) == Some(RemoteControlConnectionStatus::Connected) <==> name
            == "connected"@,
        connection_status_named(name) == Some(RemoteControlConnectionStatus::Errored) <==> name
            == "errored"@,
{
    lemma_status_names();
}

/// Tokens are read from a file of UTF-8 that holds JSON; anything else cannot be read.
pub proof fn law_tokens_are_read_from_json(bytes: Seq<u8>, v: JsonV)
    ensures
        !vstd::utf8::valid_utf8(bytes) ==> tokens_of(bytes) == Err::<AuthV, AuthError>(
            AuthError::Parse,
        ),
        vstd::utf8::valid_utf8(bytes) && parsed(vstd::utf8::decode_utf8(bytes)) is None
            ==> tokens_of(bytes) == Err::<AuthV, AuthError>(AuthError::Parse),
        vstd::utf8::valid_utf8(bytes) && parsed(vstd::utf8::decode_utf8(bytes)) == Some(v)
            ==> tokens_of(bytes) == tokens_in(v),
{
}

/// A failure names the file, and what was to be done with it.
pub proof fn law_failures_name_the_file(path: Seq<char>, source: Seq<char>)
    ensures
        auth_error_text(AuthError::Read, path, source) == "reading "@ + path + (": "@ + source),
        auth_error_text(AuthError::Parse, path, source) == "parsing "@ + path + (": "@ + source),
        begins(auth_error_text(AuthError::MissingTokenFields, path, source), path),
{
    let t = auth_error_text(AuthError::MissingTokenFields, path, source);
    assert(t.take(path.len() as int) =~= path);
}

} // verus!
