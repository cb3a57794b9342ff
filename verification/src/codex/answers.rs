//! Fixed answers that bridges give to requests their agents have no notion of.

use vstd::prelude::*;

use crate::json::{Json, JsonV};

verus! {

/// A page without entries.
pub open spec fn empty_page() -> JsonV {
    JsonV::object().with("data"@, JsonV::Arr(seq![])).with("nextCursor"@, JsonV::Null)
}

/// An account that works with a key.
pub open spec fn key_account() -> JsonV {
    JsonV::object()
        .with("account"@, JsonV::object().with("type"@, JsonV::Str("apiKey"@)))
        .with("requiresOpenaiAuth"@, JsonV::Bool(false))
}

/// A login with a key.
pub open spec fn key_login() -> JsonV {
    JsonV::object().with("type"@, JsonV::Str("apiKey"@))
}

/// There is no login to cancel.
pub open spec fn no_login() -> JsonV {
    JsonV::object().with("status"@, JsonV::Str("notFound"@))
}

/// No rate limits are known.
pub open spec fn no_rate_limits() -> JsonV {
    JsonV::object().with("rateLimits"@, JsonV::object())
}

/// A configuration was written.
pub open spec fn config_written(version: Seq<char>, file_path: Seq<char>) -> JsonV {
    JsonV::object()
        .with("status"@, JsonV::Str("ok"@))
        .with("version"@, JsonV::Str(version))
        .with("filePath"@, JsonV::Str(file_path))
        .with("overriddenMetadata"@, JsonV::Null)
}

/// A skill is switched on or off.
pub open spec fn skill_enabled(enabled: bool) -> JsonV {
    JsonV::object().with("effectiveEnabled"@, JsonV::Bool(enabled))
}

/// Writes a page without entries.
pub fn empty_page_json() -> (j: Json)
    ensures
        j.view() == empty_page(),
{
    Json::object().with("data", Json::empty_array()).with("nextCursor", Json::Null)
}

/// Writes an account that works with a key.
pub fn key_account_json() -> (j: Json)
    ensures
        j.view() == key_account(),
{
    Json::object()
        .with("account", Json::object().with("type", Json::text("apiKey")))
        .with("requiresOpenaiAuth", Json::Bool(false))
}

/// Writes a login with a key.
pub fn key_login_json() -> (j: Json)
    ensures
        j.view() == key_login(),
{
    Json::object().with("type", Json::text("apiKey"))
}

/// Writes that there is no login to cancel.
pub fn no_login_json() -> (j: Json)
    ensures
        j.view() == no_login(),
{
    Json::object().with("status", Json::text("notFound"))
}

/// Writes that no rate limits are known.
pub fn no_rate_limits_json() -> (j: Json)
    ensures
        j.view() == no_rate_limits(),
{
    Json::object().with("rateLimits", Json::object())
}

/// Writes that a configuration was written.
pub fn config_written_json(version: &str, file_path: &str) -> (j: Json)
    ensures
        j.view() == config_written(version@, file_path@),
{
    Json::object()
        .with("status", Json::text("ok"))
        .with("version", Json::text(version))
        .with("filePath", Json::text(file_path))
        .with("overriddenMetadata", Json::Null)
}

/// Writes whether a skill is switched on.
pub fn skill_enabled_json(enabled: bool) -> (j: Json)
    ensures
        j.view() == skill_enabled(enabled),
{
    Json::object().with("effectiveEnabled", Json::Bool(enabled))
}

} // verus!
