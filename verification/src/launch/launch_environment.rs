//! The environment in which agents are started.
//!
//! A daemon does not have the environment that users have in their terminals. It is
//! put together from what the daemon has, what the login shell of the user sets, and
//! what `mise` and `direnv` set for the project.

use vstd::prelude::*;

use super::launcher::{ProcessRole, ProcessSpec, StdioMode};
use super::paths::{
    Component, PartV, absolute, are_same, below, component_count, components, components_of,
    file_name, has_several_components, is_absolute, join_path, last_name, part_views,
};
use crate::json::{Json, JsonV, fields, is_live, lemma_fields_at, lemma_fields_live, live};
use crate::json_text::{parse, parsed};
use crate::text::{
    ascii_lowered, chars_of, contains, from_utf8, from_utf8_lossy, has_text, join2, lines, lines_of,
    lossy, opt_text, owned, same, split, split_all, split_first, split_once, texts,
    to_ascii_lowercase,
};
use crate::text_map::TextMap;

verus! {

// ---------------------------------------------------------------------------
// Policy
// ---------------------------------------------------------------------------
/// How the environment is put together.
#[derive(Debug, Clone)]
pub struct LaunchEnvironmentPolicy {
    /// Whether the login shell of the user is asked.
    pub load_user_shell: bool,
    /// Whether `mise` is asked.
    pub load_mise: bool,
    /// Whether `direnv` is asked.
    pub load_direnv: bool,
    /// Time for each of them, in milliseconds.
    pub provider_timeout_ms: u64,
    /// How long an environment is used again, in milliseconds.
    pub cache_ttl_ms: u64,
}

impl Default for LaunchEnvironmentPolicy {
    fn default() -> (r: Self)
        ensures
            r.load_user_shell,
            r.load_mise,
            r.load_direnv,
            r.provider_timeout_ms == 8_000,
            r.cache_ttl_ms == 30_000,
    {
        LaunchEnvironmentPolicy {
            load_user_shell: true,
            load_mise: true,
            load_direnv: true,
            provider_timeout_ms: 8_000,
            cache_ttl_ms: 30_000,
        }
    }
}

// ---------------------------------------------------------------------------
// Environments
// ---------------------------------------------------------------------------
/// The variables of an environment.
pub type EnvV = Map<Seq<char>, Seq<char>>;

/// The variables for one working directory.
pub struct LaunchEnvironment {
    vars: TextMap<String>,
}

/// A list of variables; a later one of the same name wins.
pub open spec fn pairs_env(s: Seq<(String, String)>) -> EnvV
    decreases s.len(),
{
    if s.len() == 0 {
        Map::empty()
    } else {
        pairs_env(s.drop_last()).insert(s.last().0@, s.last().1@)
    }
}

/// A list that names no variable twice.
pub open spec fn named_once(s: Seq<(String, String)>) -> bool {
    forall|i: int, j: int| 0 <= i < j < s.len() ==> (#[trigger] s[i]).0@ != (#[trigger] s[j]).0@
}

impl LaunchEnvironment {
    /// The variables.
    pub closed spec fn view(&self) -> EnvV {
        self.vars@.map_values(|s: String| s@)
    }

    /// An environment without variables.
    pub fn new() -> (r: LaunchEnvironment)
        ensures
            r.view() == Map::<Seq<char>, Seq<char>>::empty(),
    {
        let r = LaunchEnvironment { vars: TextMap::new() };
        assert(r.view() =~= Map::empty());
        r
    }

    /// The environment of a process, from the list of its variables.
    pub fn current(vars: &Vec<(String, String)>) -> (r: LaunchEnvironment)
        ensures
            r.view() == pairs_env(vars@),
    {
        let mut r = LaunchEnvironment::new();
        r.merge_pairs(vars);
        assert(r.view() =~= pairs_env(vars@));
        r
    }

    /// Sets a variable.
    pub fn set(&mut self, key: &str, value: &str)
        ensures
            final(self).view() == old(self).view().insert(key@, value@),
    {
        self.vars.insert(key, owned(value));
        assert(self.view() =~= old(self).view().insert(key@, value@));
    }

    /// Removes a variable.
    pub fn unset(&mut self, key: &str)
        ensures
            final(self).view() == old(self).view().remove(key@),
    {
        self.vars.remove(key);
        assert(self.view() =~= old(self).view().remove(key@));
    }

    /// The value of a variable.
    pub fn get(&self, key: &str) -> (r: Option<&str>)
        ensures
            match r {
                Some(v) => self.view().dom().contains(key@) && v@ == self.view()[key@],
                None => !self.view().dom().contains(key@),
            },
    {
        match self.vars.get(key) {
            Some(s) => Some(s.as_str()),
            None => None,
        }
    }

    /// Whether a variable is set.
    pub fn contains_key(&self, key: &str) -> (r: bool)
        ensures
            r == self.view().dom().contains(key@),
    {
        self.vars.contains_key(key)
    }

    /// Sets the variables of a list; a later one of the same name wins.
    pub fn merge_pairs(&mut self, more: &Vec<(String, String)>)
        ensures
            final(self).view() == old(self).view().union_prefer_right(pairs_env(more@)),
    {
        let ghost start = self.view();
        let mut i: usize = 0;
        assert(start.union_prefer_right(pairs_env(more@.take(0))) =~= start);
        while i < more.len()
            invariant
                i <= more@.len(),
                self.view() == start.union_prefer_right(pairs_env(more@.take(i as int))),
            decreases more@.len() - i,
        {
            assert(more@.take(i + 1).drop_last() =~= more@.take(i as int));
            assert(more@.take(i + 1).last() == more@[i as int]);
            self.set(more[i].0.as_str(), more[i].1.as_str());
            assert(self.view() =~= start.union_prefer_right(pairs_env(more@.take(i + 1))));
            i += 1;
        }
        assert(more@.take(i as int) =~= more@);
    }

    /// Sets the variables of another environment.
    pub fn merge_env(&mut self, other: &LaunchEnvironment)
        ensures
            final(self).view() == old(self).view().union_prefer_right(other.view()),
    {
        let pairs = other.to_pairs();
        self.merge_pairs(&pairs);
    }

    /// The variables as a list, each name once.
    pub fn to_pairs(&self) -> (r: Vec<(String, String)>)
        ensures
            pairs_env(r@) == self.view(),
            named_once(r@),
            r@.len() == self.view().dom().len(),
    {
        let mut out: Vec<(String, String)> = Vec::new();
        let n: usize = self.vars.len();
        let mut i: usize = 0;
        assert(pairs_env(out@) =~= Map::empty());
        while i < n
            invariant
                i <= n,
                n == self.vars.size(),
                self.vars.enumerates(),
                out@.len() == i,
                forall|j: int| 0 <= j < i ==> (#[trigger] out@[j]).0@ == self.vars.key_at(j),
                forall|k: Seq<char>| #[trigger]
                    pairs_env(out@).dom().contains(k) <==> exists|j: int|
                        0 <= j < i && #[trigger] self.vars.key_at(j) == k,
                forall|k: Seq<char>| #[trigger]
                    pairs_env(out@).dom().contains(k) ==> pairs_env(out@)[k] == self.view()[k],
            decreases n - i,
        {
            let (k, v) = self.vars.entry(i);
            let ghost was = out@;
            out.push((k.clone(), v.clone()));
            proof {
                assert(out@.drop_last() =~= was);
                assert(out@.last().0@ == k@ && out@.last().1@ == v@);
                assert(pairs_env(out@) == pairs_env(was).insert(k@, v@));
                assert forall|x: Seq<char>| #[trigger]
                    pairs_env(out@).dom().contains(x) <==> exists|j: int|
                        0 <= j < i + 1 && #[trigger] self.vars.key_at(j) == x by {
                    if x == k@ {
                        assert(self.vars.key_at(i as int) == x);
                    } else if pairs_env(was).dom().contains(x) {
                        let j = choose|j: int| 0 <= j < i && #[trigger] self.vars.key_at(j) == x;
                        assert(0 <= j < i + 1 && self.vars.key_at(j) == x);
                    }
                }
            }
            i += 1;
        }
        assert(pairs_env(out@) =~= self.view());
        assert(self.view().dom() =~= self.vars@.dom());
        out
    }

    /// The variables as a list, each name once.
    pub fn into_pairs(self) -> (r: Vec<(String, String)>)
        ensures
            pairs_env(r@) == self.view(),
            named_once(r@),
            r@.len() == self.view().dom().len(),
    {
        self.to_pairs()
    }

    /// A copy.
    pub fn copy(&self) -> (r: LaunchEnvironment)
        ensures
            r.view() == self.view(),
    {
        let pairs = self.to_pairs();
        let r = LaunchEnvironment::current(&pairs);
        r
    }
}

// ---------------------------------------------------------------------------
// What providers say
// ---------------------------------------------------------------------------
/// An ASCII letter.
pub open spec fn is_letter(c: char) -> bool {
    ('a' <= c && c <= 'z') || ('A' <= c && c <= 'Z')
}

/// A name that a variable can have.
pub open spec fn valid_key(s: Seq<char>) -> bool {
    &&& s.len() > 0
    &&& s[0] == '_' || is_letter(s[0])
    &&& forall|i: int|
        1 <= i < s.len() ==> #[trigger] s[i] == '_' || is_letter(s[i]) || ('0' <= s[i] && s[i]
            <= '9')
}

/// Whether a variable can have a name.
pub fn is_valid_env_key(key: &str) -> (r: bool)
    ensures
        r == valid_key(key@),
{
    let v = chars_of(key);
    if v.len() == 0 {
        return false;
    }
    let c = v[0];
    if !(c == '_' || ('a' <= c && c <= 'z') || ('A' <= c && c <= 'Z')) {
        return false;
    }
    let mut i: usize = 1;
    while i < v.len()
        invariant
            1 <= i <= v@.len(),
            v@ == key@,
            forall|k: int|
                1 <= k < i ==> #[trigger] key@[k] == '_' || is_letter(key@[k]) || ('0' <= key@[k]
                    && key@[k] <= '9'),
        decreases v@.len() - i,
    {
        let c = v[i];
        if !(c == '_' || ('a' <= c && c <= 'z') || ('A' <= c && c <= 'Z') || ('0' <= c && c
            <= '9')) {
            assert(key@[i as int] == c);
            return false;
        }
        i += 1;
    }
    true
}

/// The variables that some lines set: each `NAME=value` with a valid name counts, and a
/// later one wins.
pub open spec fn lines_env(s: Seq<Seq<char>>) -> EnvV
    decreases s.len(),
{
    if s.len() == 0 {
        Map::empty()
    } else {
        match split_first(s.last(), '=') {
            Some((k, v)) => if valid_key(k) {
                lines_env(s.drop_last()).insert(k, v)
            } else {
                lines_env(s.drop_last())
            },
            None => lines_env(s.drop_last()),
        }
    }
}

/// The variables that a shell printed.
pub fn parse_env_output(stdout: &[u8]) -> (r: LaunchEnvironment)
    ensures
        r.view() == lines_env(lines_of(lossy(stdout@))),
{
    let text = from_utf8_lossy(stdout);
    let all = lines(text.as_str());
    let ghost ls = texts(all@);
    let mut env = LaunchEnvironment::new();
    let mut i: usize = 0;
    assert(env.view() =~= lines_env(ls.take(0)));
    while i < all.len()
        invariant
            i <= all@.len(),
            ls == texts(all@),
            env.view() == lines_env(ls.take(i as int)),
        decreases all@.len() - i,
    {
        assert(ls.take(i + 1).drop_last() =~= ls.take(i as int));
        assert(ls.take(i + 1).last() == all@[i as int]@);
        if let Some((k, v)) = split_once(all[i].as_str(), '=') {
            if is_valid_env_key(k.as_str()) {
                env.set(k.as_str(), v.as_str());
            }
        }
        i += 1;
    }
    assert(ls.take(i as int) =~= ls);
    env
}

/// What an object of variables makes of an environment: texts are set, `null` removes,
/// and anything else is left alone.
pub open spec fn json_applied(env: EnvV, m: Map<Seq<char>, JsonV>) -> EnvV {
    Map::new(
        |k: Seq<char>|
            if m.dom().contains(k) && valid_key(k) && m[k] is Str {
                true
            } else if m.dom().contains(k) && valid_key(k) && m[k] == JsonV::Null {
                false
            } else {
                env.dom().contains(k)
            },
        |k: Seq<char>|
            if m.dom().contains(k) && valid_key(k) && m[k] is Str {
                m[k]->Str_0
            } else {
                env[k]
            },
    )
}

/// What the output of a provider makes of an environment; output that is no JSON
/// object changes nothing.
pub open spec fn provider_applied(env: EnvV, stdout: Seq<u8>) -> EnvV {
    if vstd::utf8::valid_utf8(stdout) {
        match parsed(vstd::utf8::decode_utf8(stdout)) {
            Some(JsonV::Obj(m)) => json_applied(env, m),
            _ => env,
        }
    } else {
        env
    }
}

fn apply_fields(fs: &Vec<(String, Json)>, env: &mut LaunchEnvironment)
    ensures
        final(env).view() == json_applied(old(env).view(), fields(fs@)),
{
    let ghost start = env.view();
    let ghost m = fields(fs@);
    let n: usize = fs.len();
    let mut i: usize = 0;
    let ghost mut done: Set<Seq<char>> = Set::empty();
    while i < n
        invariant
            i <= n,
            n == fs@.len(),
            m == fields(fs@),
            forall|j: int| 0 <= j < i && #[trigger] live(fs@, j) ==> done.contains(fs@[j].0@),
            forall|k: Seq<char>| #[trigger] done.contains(k) ==> m.dom().contains(k),
            forall|k: Seq<char>| #[trigger]
                env.view().dom().contains(k) <==> (if done.contains(k) {
                    json_applied(start, m).dom().contains(k)
                } else {
                    start.dom().contains(k)
                }),
            forall|k: Seq<char>| #[trigger]
                env.view().dom().contains(k) ==> env.view()[k] == (if done.contains(k) {
                    json_applied(start, m)[k]
                } else {
                    start[k]
                }),
        decreases n - i,
    {
        if is_live(fs, i) {
            let key = fs[i].0.as_str();
            proof {
                lemma_fields_at(fs@, i as int);
                done = done.insert(key@);
            }
            if is_valid_env_key(key) {
                match &fs[i].1 {
                    Json::Str(s) => {
                        assert(m[key@] == JsonV::Str(s@));
                        env.set(key, s.as_str());
                    },
                    Json::Null => {
                        assert(m[key@] == JsonV::Null);
                        env.unset(key);
                    },
                    Json::Number(num) => {
                        assert(m[key@] == crate::json::number_json(*num));
                    },
                    _ => {},
                }
            }
        }
        i += 1;
    }
    proof {
        assert forall|k: Seq<char>| m.dom().contains(k) implies done.contains(k) by {
            let j = lemma_fields_live(fs@, k);
            assert(live(fs@, j));
        }
        assert(env.view() =~= json_applied(start, m));
    }
}

/// Applies the output of `mise` or `direnv` to an environment.
pub fn apply_json_env(stdout: &[u8], env: &mut LaunchEnvironment)
    ensures
        final(env).view() == provider_applied(old(env).view(), stdout@),
{
    let text = match from_utf8(stdout) {
        Some(t) => t,
        None => {
            return;
        },
    };
    match parse(text.as_str()) {
        Some(Json::Object(fs)) => {
            apply_fields(&fs, env);
        },
        Some(Json::Number(n)) => {
            assert(crate::json::number_json(n) !is Obj);
        },
        _ => {},
    }
}

// ---------------------------------------------------------------------------
// The login shell
// ---------------------------------------------------------------------------
/// Shells to try on macOS, in order.
pub const MACOS_SHELLS: [&'static str; 3] = ["/bin/zsh", "/bin/bash", "/bin/sh"];

/// Shells to try on other Unix hosts, in order.
pub const UNIX_SHELLS: [&'static str; 7] = [
    "/bin/bash",
    "/usr/bin/bash",
    "/bin/zsh",
    "/usr/bin/zsh",
    "/usr/bin/fish",
    "/bin/fish",
    "/bin/sh",
];

/// The first path of a list that exists.
pub open spec fn first_existing(s: Seq<(String, bool)>) -> Option<Seq<char>>
    decreases s.len(),
{
    if s.len() == 0 {
        None
    } else if s[0].1 {
        Some(s[0].0@)
    } else {
        first_existing(s.skip(1))
    }
}

/// The first path of a list that exists.
pub fn pick_existing(v: &Vec<(String, bool)>) -> (r: Option<String>)
    ensures
        opt_text(r) == first_existing(v@),
{
    let mut i: usize = 0;
    assert(v@.skip(0) =~= v@);
    while i < v.len()
        invariant
            i <= v@.len(),
            first_existing(v@) == first_existing(v@.skip(i as int)),
        decreases v@.len() - i,
    {
        assert(v@.skip(i as int)[0] == v@[i as int]);
        assert(v@.skip(i as int).skip(1) =~= v@.skip(i + 1));
        if v[i].1 {
            return Some(v[i].0.clone());
        }
        i += 1;
    }
    None
}

/// The login shell of the user: what `SHELL` says, or else the first of the usual
/// shells that exists.
pub fn detect_user_shell(shell: Option<String>, usual: &Vec<(String, bool)>) -> (r: Option<String>)
    ensures
        opt_text(r) == (match shell {
            Some(s) => if s@.len() > 0 {
                Some(s@)
            } else {
                first_existing(usual@)
            },
            None => first_existing(usual@),
        }),
{
    match shell {
        Some(s) => if s.as_str().is_empty() {
            pick_existing(usual)
        } else {
            Some(s)
        },
        None => pick_existing(usual),
    }
}

/// The name of a shell in lower case.
pub open spec fn shell_name(shell: Seq<char>, windows: bool) -> Seq<char> {
    match last_name(shell, windows) {
        Some(n) => ascii_lowered(n),
        None => seq![],
    }
}

/// The arguments with which a shell prints its environment: as a login shell, and
/// where it can be both, as an interactive one.
pub open spec fn shell_args(name: Seq<char>) -> Seq<Seq<char>> {
    if has_text(name, "fish"@) {
        seq!["-l"@, "-c"@, "env"@]
    } else if has_text(name, "zsh"@) || has_text(name, "bash"@) {
        seq!["-lic"@, "env"@]
    } else if name == "sh"@ || name == "dash"@ || name == "ash"@ || name == "busybox"@ {
        seq!["-c"@, "env"@]
    } else {
        seq!["-lc"@, "env"@]
    }
}

fn list2(a: &str, b: &str) -> (r: Vec<String>)
    ensures
        texts(r@) == seq![a@, b@],
{
    let mut v: Vec<String> = Vec::new();
    v.push(owned(a));
    v.push(owned(b));
    assert(texts(v@) =~= seq![a@, b@]);
    v
}

/// The arguments with which a shell prints its environment.
pub fn shell_env_args(shell: &str, windows: bool) -> (r: Vec<String>)
    ensures
        texts(r@) == shell_args(shell_name(shell@, windows)),
{
    let name = match file_name(shell, windows) {
        Some(n) => to_ascii_lowercase(n.as_str()),
        None => String::new(),
    };
    assert(name@ =~= shell_name(shell@, windows));
    let s = name.as_str();
    if contains(s, "fish") {
        let mut v: Vec<String> = Vec::new();
        v.push(owned("-l"));
        v.push(owned("-c"));
        v.push(owned("env"));
        assert(texts(v@) =~= seq!["-l"@, "-c"@, "env"@]);
        v
    } else if contains(s, "zsh") || contains(s, "bash") {
        list2("-lic", "env")
    } else if same(s, "sh") || same(s, "dash") || same(s, "ash") || same(s, "busybox") {
        list2("-c", "env")
    } else {
        list2("-lc", "env")
    }
}

// ---------------------------------------------------------------------------
// Finding programs
// ---------------------------------------------------------------------------
/// Where `mise` may be when it is not on the search path.
pub const MISE_FALLBACKS: [&'static str; 6] = [
    ".local/bin/mise",
    ".local/share/mise/bin/mise",
    ".local/share/mise/shims/mise",
    "/opt/homebrew/bin/mise",
    "/usr/local/bin/mise",
    "/usr/bin/mise",
];

/// Where `direnv` may be when it is not on the search path.
pub const DIRENV_FALLBACKS: [&'static str; 4] = [
    ".local/bin/direnv",
    "/opt/homebrew/bin/direnv",
    "/usr/local/bin/direnv",
    "/usr/bin/direnv",
];

/// The places that a list names: what does not start at the root is below the home
/// directory, and is left out where there is none.
pub open spec fn fallback_places(
    s: Seq<&'static str>,
    home: Option<Seq<char>>,
    windows: bool,
) -> Seq<Seq<char>>
    decreases s.len(),
{
    if s.len() == 0 {
        seq![]
    } else {
        let rest = fallback_places(s.drop_last(), home, windows);
        if absolute(s.last()@, windows) {
            rest.push(s.last()@)
        } else {
            match home {
                Some(h) => rest.push(below(h, s.last()@, windows)),
                None => rest,
            }
        }
    }
}

/// The places that a list names.
pub fn provider_places(list: &[&'static str], home: Option<&str>, windows: bool) -> (r: Vec<String>)
    ensures
        texts(r@) == fallback_places(
            list@,
            match home {
                Some(h) => Some(h@),
                None => None,
            },
            windows,
        ),
{
    let ghost h = match home {
        Some(x) => Some(x@),
        None => None,
    };
    let mut out: Vec<String> = Vec::new();
    assert(texts(out@) =~= seq![]);
    let n: usize = list.len();
    let mut i: usize = 0;
    while i < n
        invariant
            i <= n,
            n == list@.len(),
            h == (match home {
                Some(x) => Some(x@),
                None => None,
            }),
            texts(out@) == fallback_places(list@.take(i as int), h, windows),
        decreases n - i,
    {
        let ghost was = out@;
        assert(list@.take(i + 1).drop_last() =~= list@.take(i as int));
        assert(list@.take(i + 1).last() == list@[i as int]);
        if is_absolute(list[i], windows) {
            out.push(owned(list[i]));
            assert(texts(out@) =~= texts(was).push(list@[i as int]@));
        } else {
            if let Some(x) = home {
                out.push(join_path(x, list[i], windows));
                assert(texts(out@) =~= texts(was).push(below(x@, list@[i as int]@, windows)));
            }
        }
        i += 1;
    }
    assert(list@.take(n as int) =~= list@);
    out
}

/// The directories that a Windows search path names: quotes keep a separator from
/// separating, and are dropped.
pub open spec fn windows_dirs(s: Seq<char>, part: Seq<char>, quoted: bool) -> Seq<Seq<char>>
    decreases s.len(),
{
    if s.len() == 0 {
        seq![part]
    } else if s[0] == '"' {
        windows_dirs(s.skip(1), part, !quoted)
    } else if s[0] == ';' && !quoted {
        seq![part] + windows_dirs(s.skip(1), seq![], false)
    } else {
        windows_dirs(s.skip(1), part.push(s[0]), quoted)
    }
}

/// The directories that a search path names.
pub open spec fn search_dirs(path: Seq<char>, windows: bool) -> Seq<Seq<char>> {
    if windows {
        windows_dirs(path, seq![], false)
    } else {
        split_all(path, ':')
    }
}

fn quoted_dirs(path: &str) -> (r: Vec<String>)
    ensures
        texts(r@) == windows_dirs(path@, seq![], false),
{
    let v = chars_of(path);
    let mut out: Vec<String> = Vec::new();
    let mut part = String::new();
    let mut quoted = false;
    let mut i: usize = 0;
    assert(path@.skip(0) =~= path@);
    assert(part@ =~= seq![]);
    assert(texts(out@) + windows_dirs(path@, seq![], false) =~= windows_dirs(path@, seq![], false));
    while i < v.len()
        invariant
            i <= v@.len(),
            v@ == path@,
            texts(out@) + windows_dirs(path@.skip(i as int), part@, quoted) == windows_dirs(
                path@,
                seq![],
                false,
            ),
        decreases v@.len() - i,
    {
        let ghost rest = path@.skip(i as int);
        assert(rest[0] == v@[i as int]);
        assert(rest.skip(1) =~= path@.skip(i + 1));
        if v[i] == '"' {
            quoted = !quoted;
        } else if v[i] == ';' && !quoted {
            let ghost was = out@;
            let ghost g = part@;
            out.push(part);
            part = String::new();
            assert(part@ =~= seq![]);
            assert(texts(out@) =~= texts(was).push(g));
            assert(texts(out@) + windows_dirs(rest.skip(1), seq![], false) =~= texts(was) + (seq![g]
                + windows_dirs(rest.skip(1), seq![], false)));
        } else {
            part.push(v[i]);
        }
        i += 1;
    }
    let ghost was = out@;
    let ghost g = part@;
    assert(path@.skip(i as int) =~= seq![]);
    out.push(part);
    assert(texts(out@) =~= texts(was) + seq![g]);
    out
}

/// The directories that a search path names.
pub fn path_dirs(path: &str, windows: bool) -> (r: Vec<String>)
    ensures
        texts(r@) == search_dirs(path@, windows),
{
    if windows {
        quoted_dirs(path)
    } else {
        split(path, ':')
    }
}

/// Where a program may be in a directory.
pub open spec fn places_in(dir: Seq<char>, program: Seq<char>, windows: bool) -> Seq<Seq<char>> {
    if windows {
        seq![
            below(dir, program, windows),
            below(dir, program + ".exe"@, windows),
            below(dir, program + ".cmd"@, windows),
            below(dir, program + ".bat"@, windows),
        ]
    } else {
        seq![below(dir, program, windows)]
    }
}

/// Where a program may be in some directories.
pub open spec fn places_in_all(
    dirs: Seq<Seq<char>>,
    program: Seq<char>,
    windows: bool,
) -> Seq<Seq<char>>
    decreases dirs.len(),
{
    if dirs.len() == 0 {
        seq![]
    } else {
        places_in_all(dirs.drop_last(), program, windows) + places_in(
            dirs.last(),
            program,
            windows,
        )
    }
}

/// Where a program may be, in an environment.
pub open spec fn places_of(env: EnvV, program: Seq<char>, windows: bool) -> Seq<Seq<char>> {
    if env.dom().contains("PATH"@) {
        places_in_all(search_dirs(env["PATH"@], windows), program, windows)
    } else {
        seq![]
    }
}

fn places_in_dirs(dirs: &Vec<String>, program: &str, windows: bool) -> (r: Vec<String>)
    ensures
        texts(r@) == places_in_all(texts(dirs@), program@, windows),
{
    let ghost all = texts(dirs@);
    let mut out: Vec<String> = Vec::new();
    let mut i: usize = 0;
    assert(texts(out@) =~= places_in_all(all.take(0), program@, windows));
    while i < dirs.len()
        invariant
            i <= dirs@.len(),
            all == texts(dirs@),
            texts(out@) == places_in_all(all.take(i as int), program@, windows),
        decreases dirs@.len() - i,
    {
        let ghost was = texts(out@);
        let dir = dirs[i].as_str();
        assert(all.take(i + 1).drop_last() =~= all.take(i as int));
        assert(all.take(i + 1).last() == dir@);
        out.push(join_path(dir, program, windows));
        if windows {
            out.push(join_path(dir, join2(program, ".exe").as_str(), windows));
            out.push(join_path(dir, join2(program, ".cmd").as_str(), windows));
            out.push(join_path(dir, join2(program, ".bat").as_str(), windows));
        }
        assert(texts(out@) =~= was + places_in(dir@, program@, windows));
        i += 1;
    }
    assert(all.take(i as int) =~= all);
    out
}

/// The first place that holds something that can be run; a place of which nothing is
/// told holds nothing.
pub open spec fn first_runnable(places: Seq<Seq<char>>, runnable: Seq<bool>) -> Option<Seq<char>>
    decreases places.len(),
{
    if places.len() == 0 || runnable.len() == 0 {
        None
    } else if runnable[0] {
        Some(places[0])
    } else {
        first_runnable(places.skip(1), runnable.skip(1))
    }
}

/// The first place that holds something that can be run.
pub fn pick_runnable(places: &Vec<String>, runnable: &Vec<bool>) -> (r: Option<String>)
    ensures
        opt_text(r) == first_runnable(texts(places@), runnable@),
{
    let ghost all = texts(places@);
    let mut i: usize = 0;
    assert(all.skip(0) =~= all);
    assert(runnable@.skip(0) =~= runnable@);
    while i < places.len() && i < runnable.len()
        invariant
            i <= places@.len(),
            i <= runnable@.len(),
            all == texts(places@),
            first_runnable(all, runnable@) == first_runnable(
                all.skip(i as int),
                runnable@.skip(i as int),
            ),
        decreases places@.len() - i,
    {
        assert(all.skip(i as int)[0] == places@[i as int]@);
        assert(runnable@.skip(i as int)[0] == runnable@[i as int]);
        assert(all.skip(i as int).skip(1) =~= all.skip(i + 1));
        assert(runnable@.skip(i as int).skip(1) =~= runnable@.skip(i + 1));
        if runnable[i] {
            return Some(places[i].clone());
        }
        i += 1;
    }
    None
}

impl LaunchEnvironment {
    /// Where a program may be: in the directories of `PATH`, in order.
    pub fn places_on_path(&self, program: &str, windows: bool) -> (r: Vec<String>)
        ensures
            texts(r@) == places_of(self.view(), program@, windows),
    {
        match self.get("PATH") {
            Some(path) => {
                let dirs = path_dirs(path, windows);
                places_in_dirs(&dirs, program, windows)
            },
            None => {
                let none: Vec<String> = Vec::new();
                assert(texts(none@) =~= seq![]);
                none
            },
        }
    }

    /// The program that a name stands for, given for each place on the path whether it
    /// holds something that can be run.
    pub fn find_on_path(&self, program: &str, windows: bool, runnable: &Vec<bool>) -> (r: Option<
        String,
    >)
        ensures
            opt_text(r) == first_runnable(places_of(self.view(), program@, windows), runnable@),
    {
        let places = self.places_on_path(program, windows);
        pick_runnable(&places, runnable)
    }
}

/// Where a provider may be: on the path, and then in the usual places.
pub fn find_provider_places(
    program: &str,
    env: &LaunchEnvironment,
    windows: bool,
    fallback: &[&'static str],
) -> (r: Vec<String>)
    ensures
        texts(r@) == places_of(env.view(), program@, windows) + fallback_places(
            fallback@,
            if env.view().dom().contains("HOME"@) {
                Some(env.view()["HOME"@])
            } else {
                None
            },
            windows,
        ),
{
    let mut out = env.places_on_path(program, windows);
    let ghost was = texts(out@);
    let mut more = provider_places(fallback, env.get("HOME"), windows);
    let ghost added = texts(more@);
    out.append(&mut more);
    assert(texts(out@) =~= was + added);
    out
}

/// The names to look up for a program: none for a path; else its own, and then its
/// aliases.
pub open spec fn lookup_names(
    program: Seq<char>,
    aliases: Map<Seq<char>, Vec<String>>,
    windows: bool,
) -> Seq<Seq<char>> {
    if component_count(program, windows) > 1 {
        seq![]
    } else if aliases.dom().contains(program) {
        seq![program] + texts(aliases[program]@)
    } else {
        seq![program]
    }
}

/// The first name of a list that was found.
pub open spec fn first_found(s: Seq<Option<String>>) -> Option<Seq<char>>
    decreases s.len(),
{
    if s.len() == 0 {
        None
    } else {
        match s[0] {
            Some(p) => Some(p@),
            None => first_found(s.skip(1)),
        }
    }
}

/// The program to start: the first of its names that was found, or else the program as
/// it was given.
pub fn resolve_program_for_launch(program: &str, found: &Vec<Option<String>>) -> (r: String)
    ensures
        r@ == (match first_found(found@) {
            Some(p) => p,
            None => program@,
        }),
{
    let mut i: usize = 0;
    assert(found@.skip(0) =~= found@);
    while i < found.len()
        invariant
            i <= found@.len(),
            first_found(found@) == first_found(found@.skip(i as int)),
        decreases found@.len() - i,
    {
        assert(found@.skip(i as int)[0] == found@[i as int]);
        assert(found@.skip(i as int).skip(1) =~= found@.skip(i + 1));
        if let Some(p) = &found[i] {
            return p.clone();
        }
        i += 1;
    }
    owned(program)
}

// ---------------------------------------------------------------------------
// Asking the providers
// ---------------------------------------------------------------------------
/// Who is asked for variables.
#[derive(Debug, Clone, Copy, PartialEq, Eq, Structural)]
pub enum Provider {
    UserShell,
    Mise,
    Direnv,
}

/// Whether a provider is asked.
pub fn is_asked(policy: &LaunchEnvironmentPolicy, provider: Provider) -> (r: bool)
    ensures
        r == (match provider {
            Provider::UserShell => policy.load_user_shell,
            Provider::Mise => policy.load_mise,
            Provider::Direnv => policy.load_direnv,
        }),
{
    match provider {
        Provider::UserShell => policy.load_user_shell,
        Provider::Mise => policy.load_mise,
        Provider::Direnv => policy.load_direnv,
    }
}

/// The arguments with which a provider is asked.
pub open spec fn provider_args(
    provider: Provider,
    program: Seq<char>,
    cwd: Option<Seq<char>>,
    windows: bool,
) -> Seq<Seq<char>> {
    match provider {
        Provider::UserShell => shell_args(shell_name(program, windows)),
        Provider::Mise => match cwd {
            Some(dir) => seq!["env"@, "--json"@, "-C"@, dir],
            None => seq!["env"@, "--json"@],
        },
        Provider::Direnv => seq!["export"@, "json"@],
    }
}

/// How a provider is asked: it sees the environment as far as it is known, nothing of
/// the daemon, and starts in the working directory where there is one.
pub fn probe(
    provider: Provider,
    program: &str,
    cwd: Option<&str>,
    cwd_is_dir: bool,
    windows: bool,
    env: &LaunchEnvironment,
) -> (r: ProcessSpec)
    ensures
        r.role == ProcessRole::ToolCommand,
        r.program@ == program@,
        texts(r.args@) == provider_args(
            provider,
            program@,
            match cwd {
                Some(c) => Some(c@),
                None => None,
            },
            windows,
        ),
        opt_text(r.cwd) == (if cwd_is_dir {
            match cwd {
                Some(c) => Some(c@),
                None => None,
            }
        } else {
            None
        }),
        r.env_clear,
        pairs_env(r.env@) == env.view(),
        named_once(r.env@),
        r.stdin == StdioMode::Null,
        r.stdout == StdioMode::Piped,
        r.stderr == StdioMode::Null,
{
    let args = match provider {
        Provider::UserShell => shell_env_args(program, windows),
        Provider::Mise => {
            let mut v = list2("env", "--json");
            if let Some(c) = cwd {
                let ghost was = v@;
                v.push(owned("-C"));
                v.push(owned(c));
                assert(texts(v@) =~= texts(was).push("-C"@).push(c@));
                assert(texts(v@) =~= seq!["env"@, "--json"@, "-C"@, c@]);
            }
            v
        },
        Provider::Direnv => list2("export", "json"),
    };
    ProcessSpec {
        role: ProcessRole::ToolCommand,
        program: owned(program),
        args,
        cwd: match cwd {
            Some(c) => if cwd_is_dir {
                Some(owned(c))
            } else {
                None
            },
            None => None,
        },
        env: env.to_pairs(),
        env_clear: true,
        stdin: StdioMode::Null,
        stdout: StdioMode::Piped,
        stderr: StdioMode::Null,
    }
}

/// What an answer makes of an environment. A shell may end with an error and still be
/// heard; the others may not.
pub open spec fn answered(env: EnvV, provider: Provider, success: bool, stdout: Seq<u8>) -> EnvV {
    match provider {
        Provider::UserShell => env.union_prefer_right(lines_env(lines_of(lossy(stdout)))),
        _ => if success {
            provider_applied(env, stdout)
        } else {
            env
        },
    }
}

/// Takes the answer of a provider into an environment.
pub fn absorb(env: &mut LaunchEnvironment, provider: Provider, success: bool, stdout: &[u8])
    ensures
        final(env).view() == answered(old(env).view(), provider, success, stdout@),
{
    match provider {
        Provider::UserShell => {
            let told = parse_env_output(stdout);
            env.merge_env(&told);
        },
        _ => {
            if success {
                apply_json_env(stdout, env);
            }
        },
    }
}

// ---------------------------------------------------------------------------
// Starting
// ---------------------------------------------------------------------------
/// An environment that was put together at some time.
struct CacheEntry {
    env: LaunchEnvironment,
    cached_at_ms: u64,
}

/// An environment for a working directory.
struct DirEntry {
    dir: Vec<Component>,
    entry: CacheEntry,
}

/// What is kept for a path: the last entry for it.
spec fn entry_for(s: Seq<DirEntry>, dir: Seq<PartV>) -> Option<(EnvV, u64)>
    decreases s.len(),
{
    if s.len() == 0 {
        None
    } else if part_views(s.last().dir@) == dir {
        Some((s.last().entry.env.view(), s.last().entry.cached_at_ms))
    } else {
        entry_for(s.drop_last(), dir)
    }
}

proof fn lemma_entry_removed(s: Seq<DirEntry>, i: int, dir: Seq<PartV>)
    requires
        0 <= i < s.len(),
        part_views(s[i].dir@) != dir,
    ensures
        entry_for(s.remove(i), dir) == entry_for(s, dir),
    decreases s.len(),
{
    let t = s.remove(i);
    if i == s.len() - 1 {
        assert(t =~= s.drop_last());
    } else {
        assert(t.last() == s.last());
        assert(t.drop_last() =~= s.drop_last().remove(i));
        lemma_entry_removed(s.drop_last(), i, dir);
    }
}

/// The working directory that environments are kept for: two texts for one path are one
/// working directory.
pub open spec fn cwd_key(cwd: Option<&str>, windows: bool) -> Option<Seq<PartV>> {
    match cwd {
        Some(c) => Some(components(c@, windows)),
        None => None,
    }
}

/// Environments by working directory, for a while.
pub struct LaunchEnvironmentResolver {
    policy: LaunchEnvironmentPolicy,
    by_cwd: Vec<DirEntry>,
    without_cwd: Option<CacheEntry>,
}

impl LaunchEnvironmentResolver {
    /// How environments are put together.
    pub closed spec fn rules(&self) -> LaunchEnvironmentPolicy {
        self.policy
    }

    /// What is kept for a working directory: an environment, and since when.
    pub closed spec fn kept(&self, cwd: Option<Seq<PartV>>) -> Option<(EnvV, u64)> {
        match cwd {
            Some(c) => entry_for(self.by_cwd@, c),
            None => match self.without_cwd {
                Some(e) => Some((e.env.view(), e.cached_at_ms)),
                None => None,
            },
        }
    }

    /// The environment of a working directory that may be used at some time.
    pub open spec fn usable(&self, cwd: Option<Seq<PartV>>, now_ms: int) -> Option<EnvV> {
        match self.kept(cwd) {
            Some((env, at)) => if now_ms - at <= self.rules().cache_ttl_ms {
                Some(env)
            } else {
                None
            },
            None => None,
        }
    }

    /// A resolver that keeps nothing yet.
    pub fn new(policy: LaunchEnvironmentPolicy) -> (r: LaunchEnvironmentResolver)
        ensures
            r.rules() == policy,
            forall|c: Option<Seq<PartV>>| #[trigger] r.kept(c) is None,
    {
        LaunchEnvironmentResolver { policy, by_cwd: Vec::new(), without_cwd: None }
    }

    /// How environments are put together.
    pub fn policy(&self) -> (r: &LaunchEnvironmentPolicy)
        ensures
            *r == self.rules(),
    {
        &self.policy
    }

    fn position(&self, dir: &Vec<Component>) -> (r: Option<usize>)
        ensures
            match r {
                Some(i) => {
                    &&& i < self.by_cwd@.len()
                    &&& part_views(self.by_cwd@[i as int].dir@) == part_views(dir@)
                    &&& entry_for(self.by_cwd@, part_views(dir@)) == Some(
                        (
                            self.by_cwd@[i as int].entry.env.view(),
                            self.by_cwd@[i as int].entry.cached_at_ms,
                        ),
                    )
                },
                None => entry_for(self.by_cwd@, part_views(dir@)) is None,
            },
    {
        let ghost all = self.by_cwd@;
        let ghost key = part_views(dir@);
        let mut i: usize = self.by_cwd.len();
        assert(all.take(i as int) =~= all);
        while i > 0
            invariant
                i <= self.by_cwd@.len(),
                all == self.by_cwd@,
                key == part_views(dir@),
                entry_for(all, key) == entry_for(all.take(i as int), key),
            decreases i,
        {
            i -= 1;
            assert(all.take(i + 1).drop_last() =~= all.take(i as int));
            assert(all.take(i + 1).last() == all[i as int]);
            if are_same(&self.by_cwd[i].dir, dir) {
                return Some(i);
            }
        }
        None
    }

    /// The environment of a working directory, if one is kept and is not too old.
    pub fn resolve(&self, cwd: Option<&str>, windows: bool, now_ms: u64) -> (r: Option<
        LaunchEnvironment,
    >)
        ensures
            match self.usable(cwd_key(cwd, windows), now_ms as int) {
                Some(env) => r is Some && r->Some_0.view() == env,
                None => r is None,
            },
    {
        let entry = match cwd {
            Some(c) => match self.position(&components_of(c, windows)) {
                Some(i) => Some(&self.by_cwd[i].entry),
                None => None,
            },
            None => match &self.without_cwd {
                Some(e) => Some(e),
                None => None,
            },
        };
        match entry {
            Some(e) => {
                let age: u64 = if now_ms >= e.cached_at_ms {
                    now_ms - e.cached_at_ms
                } else {
                    0
                };
                if age <= self.policy.cache_ttl_ms {
                    Some(e.env.copy())
                } else {
                    None
                }
            },
            None => None,
        }
    }

    /// Keeps the environment of a working directory.
    pub fn store(&mut self, cwd: Option<&str>, windows: bool, env: LaunchEnvironment, now_ms: u64)
        ensures
            final(self).kept(cwd_key(cwd, windows)) == Some((env.view(), now_ms)),
            forall|c: Option<Seq<PartV>>|
                c != cwd_key(cwd, windows) ==> #[trigger] final(self).kept(c) == old(self).kept(c),
            final(self).rules() == old(self).rules(),
    {
        let e = CacheEntry { env, cached_at_ms: now_ms };
        match cwd {
            Some(c) => {
                let dir = components_of(c, windows);
                let ghost key = part_views(dir@);
                let ghost before = self.by_cwd@;
                match self.position(&dir) {
                    Some(i) => {
                        self.by_cwd.remove(i);
                        proof {
                            assert forall|k: Seq<PartV>| k != key implies #[trigger] entry_for(
                                self.by_cwd@,
                                k,
                            ) == entry_for(before, k) by {
                                lemma_entry_removed(before, i as int, k);
                            }
                        }
                    },
                    None => {},
                }
                let ghost rest = self.by_cwd@;
                self.by_cwd.push(DirEntry { dir, entry: e });
                assert(self.by_cwd@.drop_last() =~= rest);
                assert forall|k: Option<Seq<PartV>>| k != Some(key) implies #[trigger] self.kept(k)
                    == old(self).kept(k) by {
                    if let Some(x) = k {
                        assert(entry_for(self.by_cwd@, x) == entry_for(rest, x));
                    }
                }
            },
            None => {
                self.without_cwd = Some(e);
            },
        }
    }
}

/// What is added to every process before it is started.
pub struct UserEnvironmentLauncher {
    resolver: LaunchEnvironmentResolver,
    program_aliases: TextMap<Vec<String>>,
}

impl UserEnvironmentLauncher {
    /// Where its environments come from.
    pub closed spec fn source(&self) -> LaunchEnvironmentResolver {
        self.resolver
    }

    /// Other names of programs.
    pub closed spec fn aliases(&self) -> Map<Seq<char>, Vec<String>> {
        self.program_aliases@
    }

    /// With the given policy, and without aliases.
    pub fn with_policy(policy: LaunchEnvironmentPolicy) -> (r: UserEnvironmentLauncher)
        ensures
            r.source().rules() == policy,
            forall|c: Option<Seq<PartV>>| #[trigger] r.source().kept(c) is None,
            r.aliases() == Map::<Seq<char>, Vec<String>>::empty(),
    {
        UserEnvironmentLauncher::with_resolver(LaunchEnvironmentResolver::new(policy))
    }

    /// With the given resolver, and without aliases.
    pub fn with_resolver(resolver: LaunchEnvironmentResolver) -> (r: UserEnvironmentLauncher)
        ensures
            r.source() == resolver,
            r.aliases() == Map::<Seq<char>, Vec<String>>::empty(),
    {
        let r = UserEnvironmentLauncher { resolver, program_aliases: TextMap::new() };
        assert(r.aliases() =~= Map::empty());
        r
    }

    /// With the given aliases in place of those it had.
    pub fn with_program_aliases(self, aliases: TextMap<Vec<String>>) -> (r: UserEnvironmentLauncher)
        ensures
            r.source() == self.source(),
            r.aliases() == aliases@,
    {
        UserEnvironmentLauncher { resolver: self.resolver, program_aliases: aliases }
    }

    /// Where its environments come from.
    pub fn resolver(&self) -> (r: &LaunchEnvironmentResolver)
        ensures
            *r == self.source(),
    {
        &self.resolver
    }

    /// Keeps the environment of a working directory.
    pub fn keep(&mut self, cwd: Option<&str>, windows: bool, env: LaunchEnvironment, now_ms: u64)
        ensures
            final(self).source().kept(cwd_key(cwd, windows)) == Some((env.view(), now_ms)),
            forall|c: Option<Seq<PartV>>|
                c != cwd_key(cwd, windows) ==> #[trigger] final(self).source().kept(c) == old(
                    self,
                ).source().kept(c),
            final(self).source().rules() == old(self).source().rules(),
            final(self).aliases() == old(self).aliases(),
    {
        self.resolver.store(cwd, windows, env, now_ms);
    }

    /// The names to look up for a program: none for a path; else its own, and then its
    /// aliases.
    pub fn names_to_find(&self, program: &str, windows: bool) -> (r: Vec<String>)
        ensures
            texts(r@) == lookup_names(program@, self.aliases(), windows),
    {
        let mut out: Vec<String> = Vec::new();
        if has_several_components(program, windows) {
            assert(texts(out@) =~= seq![]);
            return out;
        }
        out.push(owned(program));
        assert(texts(out@) =~= seq![program@]);
        if let Some(list) = self.program_aliases.get(program) {
            let mut i: usize = 0;
            let n: usize = list.len();
            assert(texts(out@) =~= seq![program@] + texts(list@.take(0)));
            while i < n
                invariant
                    i <= n,
                    n == list@.len(),
                    texts(out@) == seq![program@] + texts(list@.take(i as int)),
                decreases n - i,
            {
                let ghost was = out@;
                out.push(list[i].clone());
                assert(texts(out@) =~= texts(was).push(list@[i as int]@));
                assert(texts(list@.take(i + 1)) =~= texts(list@.take(i as int)).push(list@[i as int]@));
                assert(texts(out@) =~= seq![program@] + texts(list@.take(i + 1)));
                i += 1;
            }
            assert(list@.take(n as int) =~= list@);
        }
        out
    }
}

/// The environment in which a process runs: what it asks for explicitly comes last.
pub fn launch_env(env: &LaunchEnvironment, spec: &ProcessSpec) -> (r: LaunchEnvironment)
    ensures
        r.view() == env.view().union_prefer_right(pairs_env(spec.env@)),
{
    let mut all = env.copy();
    all.merge_pairs(&spec.env);
    all
}

/// Makes a process ready to be started: it gets the environment and nothing else, and
/// the program that was found.
pub fn prepare(spec: ProcessSpec, env: &LaunchEnvironment, found: &Vec<Option<String>>) -> (r:
    ProcessSpec)
    ensures
        r.program@ == (match first_found(found@) {
            Some(p) => p,
            None => spec.program@,
        }),
        r.env_clear,
        pairs_env(r.env@) == env.view().union_prefer_right(pairs_env(spec.env@)),
        named_once(r.env@),
        r.env@.len() == env.view().union_prefer_right(pairs_env(spec.env@)).dom().len(),
        r.role == spec.role,
        r.args == spec.args,
        r.cwd == spec.cwd,
        r.stdin == spec.stdin,
        r.stdout == spec.stdout,
        r.stderr == spec.stderr,
{
    let program = resolve_program_for_launch(spec.program.as_str(), found);
    let all = launch_env(env, &spec);
    ProcessSpec {
        role: spec.role,
        program,
        args: spec.args,
        cwd: spec.cwd,
        env: all.into_pairs(),
        env_clear: true,
        stdin: spec.stdin,
        stdout: spec.stdout,
        stderr: spec.stderr,
    }
}

// ---------------------------------------------------------------------------
// Laws
// ---------------------------------------------------------------------------
/// An environment that is kept is used until it has outlived its time, and not after.
pub proof fn law_kept_environment_is_used_for_its_time(
    r: LaunchEnvironmentResolver,
    cwd: Option<Seq<PartV>>,
    env: EnvV,
    at: u64,
    now: u64,
)
    requires
        r.kept(cwd) == Some((env, at)),
    ensures
        r.usable(cwd, now as int) == (if now <= at + r.rules().cache_ttl_ms {
            Some(env)
        } else {
            None::<EnvV>
        }),
{
}

/// What a process asks for explicitly wins over every other source.
pub proof fn law_explicit_variables_win(env: EnvV, explicit: EnvV, key: Seq<char>)
    requires
        explicit.dom().contains(key),
    ensures
        env.union_prefer_right(explicit).dom().contains(key),
        env.union_prefer_right(explicit)[key] == explicit[key],
{
}

/// A provider that says `null` removes a variable, one that says a text sets it, and
/// names that it does not say stay as they were.
pub proof fn law_provider_sets_and_removes(env: EnvV, m: Map<Seq<char>, JsonV>, key: Seq<char>)
    requires
        valid_key(key),
    ensures
        m.dom().contains(key) && m[key] == JsonV::Null ==> !json_applied(env, m).dom().contains(
            key,
        ),
        m.dom().contains(key) && m[key] is Str ==> json_applied(env, m).dom().contains(key)
            && json_applied(env, m)[key] == m[key]->Str_0,
        !m.dom().contains(key) ==> json_applied(env, m).dom().contains(key)
            == env.dom().contains(key),
        !m.dom().contains(key) && env.dom().contains(key) ==> json_applied(env, m)[key]
            == env[key],
{
}

/// Only valid names come out of the output of a shell.
pub proof fn law_only_valid_names(s: Seq<Seq<char>>, key: Seq<char>)
    requires
        lines_env(s).dom().contains(key),
    ensures
        valid_key(key),
    decreases s.len(),
{
    if s.len() > 0 {
        match split_first(s.last(), '=') {
            Some((k, v)) => {
                if !(valid_key(k) && k == key) {
                    law_only_valid_names(s.drop_last(), key);
                }
            },
            None => {
                law_only_valid_names(s.drop_last(), key);
            },
        }
    }
}

} // verus!
