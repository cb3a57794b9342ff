//! Hermes bridge configuration.

use vstd::prelude::*;

use super::api_client::DEFAULT_API_BASE;
use crate::text::{
    begins, lines, lines_of, opt_text, owned, starts_with, strip_prefix, texts, trim, trimmed,
};
use crate::text::{chars_of, text_of};

verus! {

/// How the bridge reaches the Hermes agent.
#[derive(Debug, PartialEq)]
pub enum HermesMode {
    /// A gateway that is already running, over HTTP.
    Api {
        /// Base address of the gateway.
        api_base: String,
    },
    /// The `hermes` program as a child process.
    Cli {
        /// Path of the program; `hermes` on the search path if absent.
        bin: Option<String>,
    },
    /// The gateway if it is healthy, else the program.
    Auto { api_base: String, bin: Option<String> },
}

impl HermesMode {
    /// The gateway address that a mode talks to.
    pub open spec fn base(self) -> Seq<char> {
        match self {
            HermesMode::Api { api_base } => api_base@,
            HermesMode::Auto { api_base, .. } => api_base@,
            HermesMode::Cli { .. } => DEFAULT_API_BASE@,
        }
    }

    /// The gateway address that this mode talks to.
    pub fn api_base(&self) -> (r: String)
        ensures
            r@ == self.base(),
    {
        match self {
            HermesMode::Api { api_base } => api_base.clone(),
            HermesMode::Auto { api_base, .. } => api_base.clone(),
            HermesMode::Cli { .. } => owned(DEFAULT_API_BASE),
        }
    }
}

impl Default for HermesMode {
    fn default() -> (r: Self)
        ensures
            r matches HermesMode::Auto { api_base, bin } && api_base@ == DEFAULT_API_BASE@
                && bin is None,
    {
        HermesMode::Auto { api_base: owned(DEFAULT_API_BASE), bin: None }
    }
}

/// Configuration of the Hermes bridge.
#[derive(Debug, PartialEq)]
pub struct HermesBridgeConfig {
    pub mode: HermesMode,
    /// Directory for state that outlives the process.
    pub state_dir: Option<String>,
    /// Longest wait for a health probe, in milliseconds.
    pub health_timeout_ms: u64,
    /// How long a health probe stays valid, in milliseconds.
    pub health_cache_ttl_ms: u64,
}

impl Default for HermesBridgeConfig {
    fn default() -> (r: Self)
        ensures
            r.mode matches HermesMode::Auto { api_base, bin } && api_base@ == DEFAULT_API_BASE@
                && bin is None,
            r.state_dir is None,
            r.health_timeout_ms == 0,
            r.health_cache_ttl_ms == 0,
    {
        HermesBridgeConfig {
            mode: HermesMode::default(),
            state_dir: None,
            health_timeout_ms: 0,
            health_cache_ttl_ms: 0,
        }
    }
}

// ---------------------------------------------------------------------------
// The key of the gateway
// ---------------------------------------------------------------------------
/// A quotation mark, single or double.
pub open spec fn quote(c: char) -> bool {
    c == '"' || c == '\''
}

/// `s` without leading quotation marks.
pub open spec fn unquoted_start(s: Seq<char>) -> Seq<char>
    decreases s.len(),
{
    if s.len() > 0 && quote(s[0]) {
        unquoted_start(s.skip(1))
    } else {
        s
    }
}

/// `s` without trailing quotation marks.
pub open spec fn unquoted_end(s: Seq<char>) -> Seq<char>
    decreases s.len(),
{
    if s.len() > 0 && quote(s.last()) {
        unquoted_end(s.drop_last())
    } else {
        s
    }
}

/// `s` without quotation marks at either end.
pub open spec fn unquoted(s: Seq<char>) -> Seq<char> {
    unquoted_end(unquoted_start(s))
}

fn is_quote(c: char) -> (r: bool)
    ensures
        r == quote(c),
{
    c == '"' || c == '\''
}

fn unquote(s: &str) -> (r: String)
    ensures
        r@ == unquoted(s@),
{
    let v = chars_of(s);
    let mut lo: usize = 0;
    let n: usize = v.len();
    assert(s@.skip(0) == s@);
    while lo < n && is_quote(v[lo])
        invariant
            lo <= n,
            n == v@.len(),
            v@ == s@,
            unquoted_start(s@) == unquoted_start(s@.skip(lo as int)),
        decreases n - lo,
    {
        assert(s@.skip(lo as int).skip(1) == s@.skip(lo + 1));
        lo += 1;
    }
    let ghost left = s@.skip(lo as int);
    assert(unquoted_start(s@) == left);
    let mut hi: usize = n;
    assert(left.take(hi - lo) == left);
    while hi > lo && is_quote(v[hi - 1])
        invariant
            lo <= hi <= n,
            n == v@.len(),
            v@ == s@,
            left == s@.skip(lo as int),
            unquoted_end(left) == unquoted_end(left.take(hi - lo)),
        decreases hi - lo,
    {
        assert(left.take(hi - lo).drop_last() == left.take(hi - lo - 1));
        assert(left.take(hi - lo).last() == s@[hi - 1]);
        hi -= 1;
    }
    let out = text_of(v.as_slice(), lo, hi);
    assert(out@ == left.take(hi - lo));
    assert(hi > lo ==> left.take(hi - lo).last() == s@[hi - 1]);
    out
}

/// The key that one line of a settings file gives, if it gives one.
pub open spec fn key_in_line(line: Seq<char>) -> Option<Seq<char>> {
    let t = trimmed(line);
    if t.len() == 0 || begins(t, "#"@) || !begins(t, "API_SERVER_KEY="@) {
        None
    } else {
        let value = trimmed(unquoted(t.skip("API_SERVER_KEY="@.len() as int)));
        if value.len() == 0 {
            None
        } else {
            Some(value)
        }
    }
}

/// The key that the first line with one gives.
pub open spec fn key_in_lines(all: Seq<Seq<char>>) -> Option<Seq<char>>
    decreases all.len(),
{
    if all.len() == 0 {
        None
    } else {
        match key_in_line(all[0]) {
            Some(k) => Some(k),
            None => key_in_lines(all.skip(1)),
        }
    }
}

/// Reads the gateway key from the text of a settings file.
pub fn load_api_key_from_dotenv(text: &str) -> (r: Option<String>)
    ensures
        opt_text(r) == key_in_lines(lines_of(text@)),
{
    let all = lines(text);
    let ghost views = texts(all@);
    let mut i: usize = 0;
    assert(views.skip(0) == views);
    while i < all.len()
        invariant
            i <= all@.len(),
            views == texts(all@),
            views == lines_of(text@),
            key_in_lines(views) == key_in_lines(views.skip(i as int)),
        decreases all@.len() - i,
    {
        assert(views.skip(i as int)[0] == all@[i as int]@);
        assert(views.skip(i as int).skip(1) == views.skip(i + 1));
        let t = trim(all[i].as_str());
        if !t.as_str().is_empty() && !starts_with(t.as_str(), "#") {
            match strip_prefix(t.as_str(), "API_SERVER_KEY=") {
                Some(rest) => {
                    let value = trim(unquote(rest.as_str()).as_str());
                    if !value.as_str().is_empty() {
                        return Some(value);
                    }
                },
                None => {},
            }
        }
        i += 1;
    }
    None
}

/// The gateway key: the bridge's own variable, then the server's variable, then
/// the settings file.
pub fn choose_api_key(own: Option<String>, server: Option<String>, dotenv: Option<&str>) -> (r:
    Option<String>)
    ensures
        opt_text(r) == (if own is Some {
            opt_text(own)
        } else if server is Some {
            opt_text(server)
        } else {
            match dotenv {
                Some(t) => key_in_lines(lines_of(t@)),
                None => None,
            }
        }),
{
    if own.is_some() {
        own
    } else if server.is_some() {
        server
    } else {
        match dotenv {
            Some(t) => load_api_key_from_dotenv(t),
            None => None,
        }
    }
}

} // verus!
