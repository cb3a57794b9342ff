//! The tokens of the account, as they stand in a file.

use vstd::prelude::*;

use crate::decode::{maybe_str, read_maybe_str};
use crate::json::{Json, JsonV, opt_str};
use crate::json_text::{parse, parsed};
use crate::text::{debugged, from_utf8, join2, join3, opt_text, owned, quote};

verus! {

/// Why there are no tokens.
#[derive(Debug, Clone, Copy, PartialEq, Eq, Structural)]
pub enum AuthError {
    /// The file cannot be read.
    Read,
    /// The file does not hold what it should.
    Parse,
    /// The file lacks a token or an account.
    MissingTokenFields,
}

/// Why there are no tokens, in words: `path` names the file, and `source` is what the
/// reader of the file says.
pub open spec fn auth_error_text(e: AuthError, path: Seq<char>, source: Seq<char>) -> Seq<char> {
    match e {
        AuthError::Read => "reading "@ + path + (": "@ + source),
        AuthError::Parse => "parsing "@ + path + (": "@ + source),
        AuthError::MissingTokenFields => path + " lacks tokens.access_token or tokens.account_id"@,
    }
}

impl AuthError {
    /// Why there are no tokens, in words.
    pub fn message(&self, path: &str, source: &str) -> (r: String)
        ensures
            r@ == auth_error_text(*self, path@, source@),
    {
        match self {
            AuthError::Read => join3("reading ", path, join2(": ", source).as_str()),
            AuthError::Parse => join3("parsing ", path, join2(": ", source).as_str()),
            AuthError::MissingTokenFields => join2(
                path,
                " lacks tokens.access_token or tokens.account_id",
            ),
        }
    }
}

/// The tokens of the account.
pub struct AuthRefreshResponse {
    pub access_token: String,
    pub chatgpt_account_id: String,
    pub chatgpt_plan_type: Option<String>,
}

/// The model of the tokens.
#[verifier::ext_equal]
pub struct AuthV {
    pub access_token: Seq<char>,
    pub chatgpt_account_id: Seq<char>,
    pub chatgpt_plan_type: Option<Seq<char>>,
}

/// The tokens on the wire.
pub open spec fn auth_json(a: AuthV) -> JsonV {
    JsonV::object()
        .with("accessToken"@, JsonV::Str(a.access_token))
        .with("chatgptAccountId"@, JsonV::Str(a.chatgpt_account_id))
        .with("chatgptPlanType"@, opt_str(a.chatgpt_plan_type))
}

/// The tokens as they are shown: without the token.
pub open spec fn auth_shown(account: Seq<char>, plan: Option<Seq<char>>) -> Seq<char> {
    "AuthRefreshResponse { access_token: \"<redacted>\", chatgpt_account_id: "@ + debugged(account) + (
    ", chatgpt_plan_type: "@ + (match plan {
        Some(p) => "Some("@ + debugged(p) + ")"@,
        None => "None"@,
    }) + " }"@)
}

impl AuthRefreshResponse {
    /// The model of these tokens.
    pub open spec fn view(&self) -> AuthV {
        AuthV {
            access_token: self.access_token@,
            chatgpt_account_id: self.chatgpt_account_id@,
            chatgpt_plan_type: opt_text(self.chatgpt_plan_type),
        }
    }

    /// The tokens on the wire.
    pub fn to_json(&self) -> (j: Json)
        ensures
            j.view() == auth_json(self.view()),
    {
        Json::object()
            .with("accessToken", Json::text(self.access_token.as_str()))
            .with("chatgptAccountId", Json::text(self.chatgpt_account_id.as_str()))
            .with("chatgptPlanType", Json::opt_str(&self.chatgpt_plan_type))
    }

    /// The tokens as they are shown: what is shown does not depend on the token.
    pub fn shown(&self) -> (r: String)
        ensures
            r@ == auth_shown(self.view().chatgpt_account_id, self.view().chatgpt_plan_type),
    {
        let plan = match &self.chatgpt_plan_type {
            Some(p) => join3("Some(", quote(p.as_str()).as_str(), ")"),
            None => owned("None"),
        };
        let tail = join3(", chatgpt_plan_type: ", plan.as_str(), " }");
        join3(
            "AuthRefreshResponse { access_token: \"<redacted>\", chatgpt_account_id: ",
            quote(self.chatgpt_account_id.as_str()).as_str(),
            tail.as_str(),
        )
    }
}

/// The token and the account that a value holds.
pub open spec fn tokens_in(v: JsonV) -> Result<AuthV, AuthError> {
    match v {
        JsonV::Obj(_) => match v.get("tokens"@) {
            None => Err(AuthError::MissingTokenFields),
            Some(t) => if t !is Obj {
                Err(AuthError::Parse)
            } else {
                match (maybe_str(t, "access_token"@), maybe_str(t, "account_id"@)) {
                    (Some(Some(token)), Some(Some(account))) => Ok(
                        AuthV {
                            access_token: token,
                            chatgpt_account_id: account,
                            chatgpt_plan_type: None,
                        },
                    ),
                    (Some(_), Some(_)) => Err(AuthError::MissingTokenFields),
                    _ => Err(AuthError::Parse),
                }
            },
        },
        _ => Err(AuthError::Parse),
    }
}

/// The token and the account that a file holds.
pub open spec fn tokens_of(bytes: Seq<u8>) -> Result<AuthV, AuthError> {
    if vstd::utf8::valid_utf8(bytes) {
        match parsed(vstd::utf8::decode_utf8(bytes)) {
            Some(v) => tokens_in(v),
            None => Err(AuthError::Parse),
        }
    } else {
        Err(AuthError::Parse)
    }
}

fn read_tokens(v: &Json) -> (r: Result<AuthRefreshResponse, AuthError>)
    ensures
        match r {
            Ok(a) => tokens_in(v.view()) == Ok::<AuthV, AuthError>(a.view()),
            Err(e) => tokens_in(v.view()) == Err::<AuthV, AuthError>(e),
        },
{
    if !v.is_object() {
        return Err(AuthError::Parse);
    }
    match v.get("tokens") {
        None => Err(AuthError::MissingTokenFields),
        Some(t) => {
            if !t.is_object() {
                return Err(AuthError::Parse);
            }
            match (read_maybe_str(t, "access_token"), read_maybe_str(t, "account_id")) {
                (Some(Some(token)), Some(Some(account))) => Ok(
                    AuthRefreshResponse {
                        access_token: token,
                        chatgpt_account_id: account,
                        chatgpt_plan_type: None,
                    },
                ),
                (Some(_), Some(_)) => Err(AuthError::MissingTokenFields),
                _ => Err(AuthError::Parse),
            }
        },
    }
}

/// The token and the account that a file holds.
pub fn read_auth_refresh_response(bytes: &[u8]) -> (r: Result<AuthRefreshResponse, AuthError>)
    ensures
        match r {
            Ok(a) => tokens_of(bytes@) == Ok::<AuthV, AuthError>(a.view()),
            Err(e) => tokens_of(bytes@) == Err::<AuthV, AuthError>(e),
        },
{
    let text = match from_utf8(bytes) {
        Some(t) => t,
        None => {
            return Err(AuthError::Parse);
        },
    };
    match parse(text.as_str()) {
        Some(v) => read_tokens(&v),
        None => Err(AuthError::Parse),
    }
}

/// What is shown of tokens is the same for every token.
pub proof fn law_token_is_not_shown(a: AuthRefreshResponse, b: AuthRefreshResponse)
    requires
        a.view().chatgpt_account_id == b.view().chatgpt_account_id,
        a.view().chatgpt_plan_type == b.view().chatgpt_plan_type,
    ensures
        auth_shown(a.view().chatgpt_account_id, a.view().chatgpt_plan_type) == auth_shown(
            b.view().chatgpt_account_id,
            b.view().chatgpt_plan_type,
        ),
{
}

} // verus!
