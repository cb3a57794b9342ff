//! Laws of what goes into a run and what is kept of it: capped output, ids, keys, words of
//! approval, and records on disk.

use vstd::prelude::*;

use super::api_client::ApprovalChoice;
use super::bridge::hermes_model_json;
use super::config::{key_in_line, unquoted, unquoted_end, unquoted_start};
use super::input::{byte_len, fitting, hex_of, truncated, width};
use super::run_file::run_json;
use super::run_manager::choice_named;
use super::run_state::RunV;
use crate::json::JsonV;
use crate::text::{begins, hex_digit, tag, trimmed};
use crate::text_laws::worth;

verus! {

// ---------------------------------------------------------------------------
// Capped output
// ---------------------------------------------------------------------------
/// A text takes as many bytes as its UTF-8 form has.
pub proof fn law_bytes_are_counted(s: Seq<char>)
    ensures
        byte_len(s) == vstd::utf8::encode_utf8(s).len(),
    decreases s.len(),
{
    if s.len() > 0 {
        vstd::utf8::char_is_scalar(s[0]);
        law_bytes_are_counted(s.skip(1));
        assert(s.skip(1) =~= s.drop_first());
    }
}

proof fn lemma_fitting_is_all_that_fits(s: Seq<char>, cap: int)
    requires
        cap >= 0,
    ensures
        0 <= fitting(s, cap) <= s.len(),
        byte_len(s.take(fitting(s, cap))) <= cap,
        fitting(s, cap) < s.len() ==> byte_len(s.take(fitting(s, cap) + 1)) > cap,
    decreases s.len(),
{
    let n = fitting(s, cap);
    if s.len() > 0 && width(s[0]) <= cap {
        let t = s.skip(1);
        let left = cap - width(s[0]);
        lemma_fitting_is_all_that_fits(t, left);
        assert(s.take(n).skip(1) =~= t.take(n - 1));
        assert(s.take(n)[0] == s[0]);
        if n < s.len() {
            assert(s.take(n + 1).skip(1) =~= t.take(n));
            assert(s.take(n + 1)[0] == s[0]);
        }
    } else if s.len() > 0 {
        assert(s.take(1)[0] == s[0]);
        assert(s.take(1).skip(1) =~= Seq::empty());
        assert(byte_len(s.take(1).skip(1)) == 0);
        assert(byte_len(s.take(0)) == 0);
    } else {
        assert(byte_len(s.take(0)) == 0);
    }
}

/// Output within its cap is all kept. Of more, the beginning is kept, in whole characters
/// that fit and as many as fit, and a note says that something is missing.
pub proof fn law_output_is_cut_to_what_fits(s: Seq<char>, cap: nat)
    ensures
        vstd::utf8::encode_utf8(s).len() <= cap ==> truncated(s, cap) == s,
        vstd::utf8::encode_utf8(s).len() > cap ==> exists|n: int|
            0 <= n < s.len() && truncated(s, cap) == (#[trigger] s.take(n)) + "\n...[truncated]"@
                && vstd::utf8::encode_utf8(s.take(n)).len() <= cap && vstd::utf8::encode_utf8(
                s.take(n + 1),
            ).len() > cap,
{
    law_bytes_are_counted(s);
    if byte_len(s) > cap {
        let n = fitting(s, cap as int);
        lemma_fitting_is_all_that_fits(s, cap as int);
        law_bytes_are_counted(s.take(n));
        if n == s.len() {
            assert(s.take(n) =~= s);
        }
        law_bytes_are_counted(s.take(n + 1));
        assert(truncated(s, cap) == s.take(n) + "\n...[truncated]"@);
    }
}

/// Bytes in hexadecimal are two digits each, in order, the higher digit first.
pub proof fn law_bytes_in_hexadecimal(bytes: Seq<u8>, i: int)
    requires
        0 <= i < bytes.len(),
    ensures
        hex_of(bytes).len() == 2 * bytes.len(),
        worth(hex_of(bytes)[2 * i]) * 16 + worth(hex_of(bytes)[2 * i + 1]) == bytes[i],
    decreases bytes.len(),
{
    let t = bytes.drop_last();
    let high = (bytes.last() / 16) as nat;
    let low = (bytes.last() % 16) as nat;
    assert(worth(hex_digit(high)) == high);
    assert(worth(hex_digit(low)) == low);
    if i < t.len() {
        law_bytes_in_hexadecimal(t, i);
        assert(t[i] == bytes[i]);
        assert(hex_of(bytes)[2 * i] == hex_of(t)[2 * i]);
        assert(hex_of(bytes)[2 * i + 1] == hex_of(t)[2 * i + 1]);
    } else {
        if t.len() > 0 {
            law_bytes_in_hexadecimal(t, 0);
        } else {
            assert(hex_of(t).len() == 0);
        }
        assert(hex_of(bytes)[2 * i] == hex_digit(high));
        assert(hex_of(bytes)[2 * i + 1] == hex_digit(low));
    }
}

// ---------------------------------------------------------------------------
// Keys
// ---------------------------------------------------------------------------
/// Quotation marks around a value are taken off, single and double ones; a value without
/// them stays as it is.
pub proof fn law_quotation_marks_are_taken_off(value: Seq<char>)
    requires
        value.len() > 0,
        value[0] != '"' && value[0] != '\'',
        value.last() != '"' && value.last() != '\'',
    ensures
        unquoted(value) == value,
        unquoted(seq!['"'] + value + seq!['"']) == value,
        unquoted(seq!['\''] + value + seq!['\'']) == value,
{
    assert(unquoted_start(value) == value && unquoted_end(value) == value);
    let double = seq!['"'] + value + seq!['"'];
    let double_rest = value + seq!['"'];
    assert(double.skip(1) =~= double_rest);
    assert(double_rest[0] == value[0]);
    assert(unquoted_start(double_rest) == double_rest);
    assert(unquoted_start(double) == double_rest);
    assert(double_rest.drop_last() =~= value);
    assert(unquoted_end(double_rest) == value);
    let single = seq!['\''] + value + seq!['\''];
    let single_rest = value + seq!['\''];
    assert(single.skip(1) =~= single_rest);
    assert(single_rest[0] == value[0]);
    assert(unquoted_start(single_rest) == single_rest);
    assert(unquoted_start(single) == single_rest);
    assert(single_rest.drop_last() =~= value);
    assert(unquoted_end(single_rest) == value);
}

/// A line that sets the key gives its value, with quotation marks and without.
pub proof fn law_keys_are_read(line: Seq<char>, value: Seq<char>)
    requires
        value.len() > 0,
        trimmed(value) == value,
        value[0] != '"' && value[0] != '\'',
        value.last() != '"' && value.last() != '\'',
        trimmed(line) == "API_SERVER_KEY="@ + value || trimmed(line) == "API_SERVER_KEY="@ + (
        seq!['"'] + value + seq!['"']),
    ensures
        key_in_line(line) == Some(value),
{
    reveal_strlit("API_SERVER_KEY=");
    reveal_strlit("#");
    let t = trimmed(line);
    let n = "API_SERVER_KEY="@.len() as int;
    assert(t.take(n) =~= "API_SERVER_KEY="@);
    assert(t[0] == 'A');
    if begins(t, "#"@) {
        assert(t.take(1)[0] == '#');
    }
    law_quotation_marks_are_taken_off(value);
    if t == "API_SERVER_KEY="@ + value {
        assert(t.skip(n) =~= value);
    } else {
        assert(t.skip(n) =~= seq!['"'] + value + seq!['"']);
    }
}

// ---------------------------------------------------------------------------
// Words of approval
// ---------------------------------------------------------------------------
proof fn lemma_words()
    ensures
        tag("once"@) == (4nat, 'o', 'n'),
        tag("approve"@) == (7nat, 'a', 'p'),
        tag("approved"@) == (8nat, 'a', 'p'),
        tag("allow"@) == (5nat, 'a', 'l'),
        tag("session"@) == (7nat, 's', 'e'),
        tag("always"@) == (6nat, 'a', 'l'),
        tag("deny"@) == (4nat, 'd', 'e'),
        tag("reject"@) == (6nat, 'r', 'e'),
        tag("denied"@) == (6nat, 'd', 'e'),
{
    reveal_strlit("once");
    reveal_strlit("approve");
    reveal_strlit("approved");
    reveal_strlit("allow");
    reveal_strlit("session");
    reveal_strlit("always");
    reveal_strlit("deny");
    reveal_strlit("reject");
    reveal_strlit("denied");
}

/// A word of consent allows a request once, for the session or always, as it says; a word
/// of refusal denies it; and any other word says nothing.
pub proof fn law_words_of_approval(word: Seq<char>)
    ensures
        choice_named(word) == Some(ApprovalChoice::Once) <==> (word == "once"@ || word
            == "approve"@ || word == "approved"@ || word == "allow"@),
        choice_named(word) == Some(ApprovalChoice::Session) <==> word == "session"@,
        choice_named(word) == Some(ApprovalChoice::Always) <==> word == "always"@,
        choice_named(word) == Some(ApprovalChoice::Deny) <==> (word == "deny"@ || word
            == "reject"@ || word == "denied"@),
{
    lemma_words();
}

// ---------------------------------------------------------------------------
// On disk and on the wire
// ---------------------------------------------------------------------------
proof fn lemma_run_keys()
    ensures
        tag("threadId"@) == (8nat, 't', 'h'),
        tag("turnId"@) == (6nat, 't', 'u'),
        tag("hermesSessionId"@) == (15nat, 'h', 'e'),
        tag("runId"@) == (5nat, 'r', 'u'),
        tag("status"@) == (6nat, 's', 't'),
        tag("createdAt"@) == (9nat, 'c', 'r'),
        tag("updatedAt"@) == (9nat, 'u', 'p'),
        tag("completedAt"@) == (11nat, 'c', 'o'),
        tag("error"@) == (5nat, 'e', 'r'),
        tag("accumulatedText"@) == (15nat, 'a', 'c'),
        tag("lastEventSeq"@) == (12nat, 'l', 'a'),
        tag("agentItemId"@) == (11nat, 'a', 'g'),
        tag("userItems"@) == (9nat, 'u', 's'),
{
    reveal_strlit("threadId");
    reveal_strlit("turnId");
    reveal_strlit("hermesSessionId");
    reveal_strlit("runId");
    reveal_strlit("status");
    reveal_strlit("createdAt");
    reveal_strlit("updatedAt");
    reveal_strlit("completedAt");
    reveal_strlit("error");
    reveal_strlit("accumulatedText");
    reveal_strlit("lastEventSeq");
    reveal_strlit("agentItemId");
    reveal_strlit("userItems");
}

/// A record on disk holds each field under its own name; what is not known is `null`.
pub proof fn law_records_on_disk(r: RunV)
    ensures
        ({
            let j = run_json(r);
            &&& j.str_at("threadId"@) == Some(r.thread_id)
            &&& j.str_at("turnId"@) == Some(r.turn_id)
            &&& j.str_at("hermesSessionId"@) == Some(r.hermes_session_id)
            &&& j.str_at("status"@) == Some(r.status.name())
            &&& j.str_at("accumulatedText"@) == Some(r.accumulated_text)
            &&& j.get("createdAt"@) == Some(JsonV::Int(r.created_at as int))
            &&& j.get("updatedAt"@) == Some(JsonV::Int(r.updated_at as int))
            &&& j.array_at("userItems"@) is Some
            &&& r.run_id matches Some(id) ==> j.str_at("runId"@) == Some(id)
            &&& r.run_id is None ==> j.get("runId"@) == Some(JsonV::Null)
            &&& r.error matches Some(e) ==> j.str_at("error"@) == Some(e)
            &&& r.error is None ==> j.get("error"@) == Some(JsonV::Null)
            &&& r.agent_item_id matches Some(id) ==> j.str_at("agentItemId"@) == Some(id)
            &&& r.completed_at matches Some(t) ==> j.get("completedAt"@) == Some(
                JsonV::Int(t as int),
            )
            &&& r.last_event_seq matches Some(n) ==> j.get("lastEventSeq"@) == Some(
                JsonV::Int(n as int),
            )
        }),
{
    lemma_run_keys();
}

proof fn lemma_model_keys()
    ensures
        tag("id"@) == (2nat, 'i', 'd'),
        tag("model"@) == (5nat, 'm', 'o'),
        tag("upgrade"@) == (7nat, 'u', 'p'),
        tag("upgradeInfo"@) == (11nat, 'u', 'p'),
        tag("availabilityNux"@) == (15nat, 'a', 'v'),
        tag("displayName"@) == (11nat, 'd', 'i'),
        tag("description"@) == (11nat, 'd', 'e'),
        tag("hidden"@) == (6nat, 'h', 'i'),
        tag("supportedReasoningEfforts"@) == (25nat, 's', 'u'),
        tag("defaultReasoningEffort"@) == (22nat, 'd', 'e'),
        tag("inputModalities"@) == (15nat, 'i', 'n'),
        tag("supportsPersonality"@) == (19nat, 's', 'u'),
        tag("additionalSpeedTiers"@) == (20nat, 'a', 'd'),
        tag("serviceTiers"@) == (12nat, 's', 'e'),
        tag("isDefault"@) == (9nat, 'i', 's'),
{
    reveal_strlit("id");
    reveal_strlit("model");
    reveal_strlit("upgrade");
    reveal_strlit("upgradeInfo");
    reveal_strlit("availabilityNux");
    reveal_strlit("displayName");
    reveal_strlit("description");
    reveal_strlit("hidden");
    reveal_strlit("supportedReasoningEfforts");
    reveal_strlit("defaultReasoningEffort");
    reveal_strlit("inputModalities");
    reveal_strlit("supportsPersonality");
    reveal_strlit("additionalSpeedTiers");
    reveal_strlit("serviceTiers");
    reveal_strlit("isDefault");
}

/// The gateway offers one model: its own, by default, for text, at medium effort.
pub proof fn law_the_model_of_the_gateway()
    ensures
        hermes_model_json().str_at("id"@) == Some("hermes-agent"@),
        hermes_model_json().str_at("model"@) == Some("hermes-agent"@),
        hermes_model_json().str_at("displayName"@) == Some("Hermes Agent"@),
        hermes_model_json().bool_at("isDefault"@) == Some(true),
        hermes_model_json().bool_at("hidden"@) == Some(false),
        hermes_model_json().bool_at("supportsPersonality"@) == Some(false),
        hermes_model_json().str_at("defaultReasoningEffort"@) == Some("medium"@),
        hermes_model_json().array_at("inputModalities"@) == Some(seq![JsonV::Str("text"@)]),
{
    lemma_model_keys();
}

} // verus!
