//! What has to be there before a target can be run.

use vstd::prelude::*;

use super::transcript::{AssistantName, TargetId};
use crate::launch::paths::{has_path, holds_path};
use crate::text::{
    blank, debugged, is_blank, join, join2, join3, joined, owned, quote, same, texts, trim, trimmed,
};

verus! {

/// The program behind a target.
#[derive(Debug)]
pub enum Prereq {
    Codex { bin: String },
    Pi { bin: String },
    Amp { bin: String },
    Claude { bin: String },
    Opencode { bin: String },
    Droid { bin: String },
    Hermes { bin: String },
    Acp { bin: String },
}

impl Prereq {
    /// The target.
    pub open spec fn target(self) -> TargetId {
        match self {
            Prereq::Codex { .. } => TargetId::Codex,
            Prereq::Pi { .. } => TargetId::Pi,
            Prereq::Amp { .. } => TargetId::Amp,
            Prereq::Claude { .. } => TargetId::Claude,
            Prereq::Opencode { .. } => TargetId::Opencode,
            Prereq::Droid { .. } => TargetId::Droid,
            Prereq::Hermes { .. } => TargetId::Hermes,
            Prereq::Acp { .. } => TargetId::Acp,
        }
    }

    /// The program.
    pub open spec fn bin(self) -> String {
        match self {
            Prereq::Codex { bin } => bin,
            Prereq::Pi { bin } => bin,
            Prereq::Amp { bin } => bin,
            Prereq::Claude { bin } => bin,
            Prereq::Opencode { bin } => bin,
            Prereq::Droid { bin } => bin,
            Prereq::Hermes { bin } => bin,
            Prereq::Acp { bin } => bin,
        }
    }
}

/// Why a target is left out.
#[derive(Debug)]
pub enum SkipReason {
    Reason(String),
}

impl SkipReason {
    /// The reason in words.
    pub open spec fn text(self) -> Seq<char> {
        match self {
            SkipReason::Reason(s) => s@,
        }
    }

    /// The reason in words.
    pub fn as_str(&self) -> (r: &str)
        ensures
            r@ == self.text(),
    {
        match self {
            SkipReason::Reason(s) => s.as_str(),
        }
    }
}

fn skip(why: &str) -> (r: SkipReason)
    ensures
        r.text() == why@,
{
    SkipReason::Reason(owned(why))
}

/// A path from the environment.
pub struct EnvPath {
    pub path: String,
    /// Whether there is such a file.
    pub exists: bool,
}

/// The file that a variable names, if it names one.
pub open spec fn named_file(env: Option<EnvPath>) -> Option<String> {
    match env {
        Some(p) => if p.path@.len() > 0 && p.exists {
            Some(p.path)
        } else {
            None
        },
        None => None,
    }
}

/// The file that a variable names, if it names one.
pub fn env_file(env: Option<EnvPath>) -> (r: Option<String>)
    ensures
        r == named_file(env),
{
    match env {
        Some(p) => if !p.path.as_str().is_empty() && p.exists {
            Some(p.path)
        } else {
            None
        },
        None => None,
    }
}

/// The program that a variable names, or else the one on the search path.
pub fn which_or_env(env: Option<EnvPath>, found: Option<String>) -> (r: Option<String>)
    ensures
        r == (match named_file(env) {
            Some(p) => Some(p),
            None => found,
        }),
{
    match env_file(env) {
        Some(p) => Some(p),
        None => found,
    }
}

// ---------------------------------------------------------------------------
// Smoke probes
// ---------------------------------------------------------------------------
/// How a smoke probe came to its end.
pub enum ProbeEnd {
    /// It could not be started.
    SpawnFailed(String),
    /// It could not be waited for.
    WaitFailed(String),
    /// It ended, and its output could not be read.
    CollectFailed(String),
    /// It did not end in time.
    TimedOut,
    /// It ended.
    Exited { success: bool, status: String, stdout: String, stderr: String },
}

/// What is wrong with the smoke probe of Pi, if anything: the answer has to be `OK`.
pub open spec fn pi_complaint(e: ProbeEnd) -> Option<Seq<char>> {
    match e {
        ProbeEnd::SpawnFailed(err) => Some("pi smoke probe failed to spawn: "@ + err@),
        ProbeEnd::WaitFailed(err) => Some("pi smoke probe failed: "@ + err@),
        ProbeEnd::CollectFailed(err) => Some(
            "pi smoke probe failed to collect output: "@ + err@,
        ),
        ProbeEnd::TimedOut => Some("pi smoke probe timed out after 30s"@),
        ProbeEnd::Exited { success, status, stdout, stderr } => if !success {
            Some("pi smoke probe exited with "@ + status@ + ": "@ + trimmed(stderr@))
        } else if trimmed(stdout@) != "OK"@ {
            Some("pi smoke probe produced unexpected stdout: "@ + debugged(trimmed(stdout@)))
        } else {
            None
        },
    }
}

/// Judges the smoke probe of Pi.
pub fn check_pi_oneshot(e: &ProbeEnd) -> (r: Result<(), SkipReason>)
    ensures
        match pi_complaint(*e) {
            Some(m) => r is Err && r->Err_0.text() == m,
            None => r is Ok,
        },
{
    match e {
        ProbeEnd::SpawnFailed(err) => Err(
            SkipReason::Reason(join2("pi smoke probe failed to spawn: ", err.as_str())),
        ),
        ProbeEnd::WaitFailed(err) => Err(
            SkipReason::Reason(join2("pi smoke probe failed: ", err.as_str())),
        ),
        ProbeEnd::CollectFailed(err) => Err(
            SkipReason::Reason(join2("pi smoke probe failed to collect output: ", err.as_str())),
        ),
        ProbeEnd::TimedOut => Err(skip("pi smoke probe timed out after 30s")),
        ProbeEnd::Exited { success, status, stdout, stderr } => {
            if !*success {
                let mut m = join3("pi smoke probe exited with ", status.as_str(), ": ");
                m.append(trim(stderr.as_str()).as_str());
                return Err(SkipReason::Reason(m));
            }
            let out = trim(stdout.as_str());
            if !same(out.as_str(), "OK") {
                return Err(
                    SkipReason::Reason(
                        join2(
                            "pi smoke probe produced unexpected stdout: ",
                            quote(out.as_str()).as_str(),
                        ),
                    ),
                );
            }
            Ok(())
        },
    }
}

/// What is wrong with the smoke probe of Hermes, if anything: there has to be an
/// answer.
pub open spec fn hermes_complaint(e: ProbeEnd) -> Option<Seq<char>> {
    match e {
        ProbeEnd::SpawnFailed(err) => Some("hermes oneshot smoke probe failed to spawn: "@ + err@),
        ProbeEnd::WaitFailed(err) => Some("hermes oneshot smoke probe failed: "@ + err@),
        ProbeEnd::CollectFailed(err) => Some(
            "hermes oneshot smoke probe failed to collect output: "@ + err@,
        ),
        ProbeEnd::TimedOut => Some("hermes oneshot smoke probe timed out after 20s"@),
        ProbeEnd::Exited { success, status, stdout, stderr } => if !success {
            Some("hermes oneshot smoke probe exited with "@ + status@ + ": "@ + trimmed(stderr@))
        } else if blank(stdout@) {
            Some(
                "hermes oneshot smoke probe produced empty stdout; run `hermes -z 'Reply with exactly OK and nothing else.'` and check Hermes auth/backend credentials"@,
            )
        } else {
            None
        },
    }
}

/// Judges the smoke probe of Hermes.
pub fn check_hermes_oneshot(e: &ProbeEnd) -> (r: Result<(), SkipReason>)
    ensures
        match hermes_complaint(*e) {
            Some(m) => r is Err && r->Err_0.text() == m,
            None => r is Ok,
        },
{
    match e {
        ProbeEnd::SpawnFailed(err) => Err(
            SkipReason::Reason(
                join2("hermes oneshot smoke probe failed to spawn: ", err.as_str()),
            ),
        ),
        ProbeEnd::WaitFailed(err) => Err(
            SkipReason::Reason(join2("hermes oneshot smoke probe failed: ", err.as_str())),
        ),
        ProbeEnd::CollectFailed(err) => Err(
            SkipReason::Reason(
                join2("hermes oneshot smoke probe failed to collect output: ", err.as_str()),
            ),
        ),
        ProbeEnd::TimedOut => Err(skip("hermes oneshot smoke probe timed out after 20s")),
        ProbeEnd::Exited { success, status, stdout, stderr } => {
            if !*success {
                let mut m = join3(
                    "hermes oneshot smoke probe exited with ",
                    status.as_str(),
                    ": ",
                );
                m.append(trim(stderr.as_str()).as_str());
                return Err(SkipReason::Reason(m));
            }
            if is_blank(stdout.as_str()) {
                return Err(
                    skip(
                        "hermes oneshot smoke probe produced empty stdout; run `hermes -z 'Reply with exactly OK and nothing else.'` and check Hermes auth/backend credentials",
                    ),
                );
            }
            Ok(())
        },
    }
}

// ---------------------------------------------------------------------------
// Credentials
// ---------------------------------------------------------------------------
/// Whether the Factory agent has credentials: a key in the environment, or a login
/// in one of its two formats below the home directory.
pub fn has_factory_auth(
    key_set: bool,
    home_set: bool,
    encrypted: bool,
    v2_file: bool,
    v2_key: bool,
) -> (r: bool)
    ensures
        r == (key_set || (home_set && (encrypted || (v2_file && v2_key)))),
{
    key_set || (home_set && (encrypted || (v2_file && v2_key)))
}

/// Whether Amp has credentials: a key in the environment, or a login below the home
/// directory.
pub fn has_amp_auth(
    key_set: bool,
    home_set: bool,
    oauth_dir: bool,
    session: bool,
    secrets: bool,
) -> (r: bool)
    ensures
        r == (key_set || (home_set && (oauth_dir || (session && secrets)))),
{
    key_set || (home_set && (oauth_dir || (session && secrets)))
}

// ---------------------------------------------------------------------------
// Candidates
// ---------------------------------------------------------------------------
/// A list with a candidate at its end, unless it is no file or is in the list.
pub open spec fn with_candidate(s: Seq<Seq<char>>, c: Option<EnvPath>, windows: bool) -> Seq<
    Seq<char>,
> {
    match c {
        Some(p) => if p.exists && !has_path(s, p.path@, windows) {
            s.push(p.path@)
        } else {
            s
        },
        None => s,
    }
}

/// Adds a candidate, unless it is no file or was added before.
pub fn push_candidate(candidates: &mut Vec<String>, path: Option<EnvPath>, windows: bool)
    ensures
        texts(final(candidates)@) == with_candidate(texts(old(candidates)@), path, windows),
{
    if let Some(p) = path {
        if p.exists && !holds_path(candidates, p.path.as_str(), windows) {
            candidates.push(p.path);
            assert(texts(candidates@) =~= texts(old(candidates)@).push(p.path@));
        }
    }
}

/// A candidate that was probed.
pub struct Probed {
    pub bin: String,
    pub end: ProbeEnd,
}

/// The first candidate without a complaint.
pub open spec fn first_usable(s: Seq<Probed>) -> Option<String>
    decreases s.len(),
{
    if s.len() == 0 {
        None
    } else {
        match first_usable(s.drop_last()) {
            Some(b) => Some(b),
            None => if pi_complaint(s.last().end) is None {
                Some(s.last().bin)
            } else {
                None
            },
        }
    }
}

/// The complaints about candidates.
pub open spec fn complaints(s: Seq<Probed>) -> Seq<Seq<char>>
    decreases s.len(),
{
    if s.len() == 0 {
        seq![]
    } else {
        match pi_complaint(s.last().end) {
            Some(m) => complaints(s.drop_last()).push(s.last().bin@ + ": "@ + m),
            None => complaints(s.drop_last()),
        }
    }
}

/// Finds the Pi program among the candidates that were probed.
pub fn check_pi(tried: &Vec<Probed>) -> (r: Result<Prereq, SkipReason>)
    ensures
        match first_usable(tried@) {
            Some(b) => r is Ok && r->Ok_0.target() == TargetId::Pi && r->Ok_0.bin()@ == b@,
            None => r is Err && r->Err_0.text() == (if tried@.len() == 0 {
                "pi-coding-agent/pi not found; set PI_BRIDGE_PI_BIN to the Pi CLI"@
            } else {
                "no usable Pi CLI found; tried "@ + joined(complaints(tried@), "; "@)
            }),
        },
{
    let mut failures: Vec<String> = Vec::new();
    assert(texts(failures@) =~= seq![]);
    let mut i: usize = 0;
    while i < tried.len()
        invariant
            i <= tried@.len(),
            first_usable(tried@.take(i as int)) is None,
            texts(failures@) == complaints(tried@.take(i as int)),
            failures@.len() == i,
        decreases tried@.len() - i,
    {
        let ghost was = failures@;
        assert(tried@.take(i + 1).drop_last() =~= tried@.take(i as int));
        assert(tried@.take(i + 1).last() == tried@[i as int]);
        match check_pi_oneshot(&tried[i].end) {
            Ok(_) => {
                proof {
                    lemma_first_usable(tried@, i + 1);
                }
                return Ok(Prereq::Pi { bin: tried[i].bin.clone() });
            },
            Err(SkipReason::Reason(why)) => {
                failures.push(join3(tried[i].bin.as_str(), ": ", why.as_str()));
                assert(texts(failures@) =~= texts(was).push(
                    tried@[i as int].bin@ + ": "@ + why@,
                ));
            },
        }
        i += 1;
    }
    assert(tried@.take(i as int) =~= tried@);
    if failures.len() == 0 {
        Err(skip("pi-coding-agent/pi not found; set PI_BRIDGE_PI_BIN to the Pi CLI"))
    } else {
        Err(
            SkipReason::Reason(
                join2("no usable Pi CLI found; tried ", join(&failures, "; ").as_str()),
            ),
        )
    }
}

proof fn lemma_first_usable(s: Seq<Probed>, n: int)
    requires
        0 <= n <= s.len(),
        first_usable(s.take(n)) is Some,
    ensures
        first_usable(s) == first_usable(s.take(n)),
    decreases s.len() - n,
{
    if n < s.len() {
        assert(s.take(n + 1).drop_last() =~= s.take(n));
        lemma_first_usable(s, n + 1);
    } else {
        assert(s.take(n) =~= s);
    }
}

// ---------------------------------------------------------------------------
// Targets
// ---------------------------------------------------------------------------
/// What was found out about a target that needs its program, and for some of them
/// credentials.
pub struct Survey {
    pub bin: Option<String>,
    /// Whether there are credentials, for the targets that need some.
    pub auth: bool,
    /// How the smoke probe of Hermes ended; none if it was not run.
    pub probe: Option<ProbeEnd>,
}

/// Why a target has to be left out, if it has to; `assistant` is the name under which the
/// coding assistant would be installed.
pub open spec fn obstacle(target: TargetId, s: Survey, assistant: Seq<char>) -> Option<Seq<char>> {
    match target {
        TargetId::Codex => if s.bin is None {
            Some("codex not on PATH"@)
        } else {
            None
        },
        TargetId::Pi => if s.bin is None {
            Some("pi-coding-agent/pi not found; set PI_BRIDGE_PI_BIN to the Pi CLI"@)
        } else {
            match s.probe {
                Some(e) => pi_complaint(e),
                None => None,
            }
        },
        TargetId::Amp => if s.bin is None {
            Some("amp not on PATH"@)
        } else if !s.auth {
            Some("amp auth unavailable: set AMP_API_KEY or run amp login"@)
        } else {
            None
        },
        TargetId::Claude => if s.bin is None {
            Some(assistant + " not on PATH"@)
        } else {
            None
        },
        TargetId::Opencode => if s.bin is None {
            Some("opencode not on PATH"@)
        } else {
            None
        },
        TargetId::Droid => if s.bin is None {
            Some("droid not on PATH"@)
        } else if !s.auth {
            Some("droid auth unavailable: set FACTORY_API_KEY or run droid login"@)
        } else {
            None
        },
        TargetId::Hermes => if s.bin is None {
            Some("hermes not on PATH; set HERMES_BRIDGE_BIN"@)
        } else {
            match s.probe {
                Some(e) => hermes_complaint(e),
                None => None,
            }
        },
        TargetId::Acp => if s.bin is None {
            Some(
                "ACP agent (devin, grok, etc.) not found. Set ACP_BRIDGE_AGENT_BIN to an absolute path."@,
            )
        } else {
            None
        },
    }
}

/// Decides whether a target can be run; `assistant` is the name under which the
/// coding assistant would be installed.
pub fn check(target: TargetId, s: Survey, assistant: &AssistantName) -> (r: Result<Prereq, SkipReason>)
    ensures
        match obstacle(target, s, assistant@) {
            Some(m) => r is Err && r->Err_0.text() == m,
            None => r is Ok && r->Ok_0.target() == target && Some(r->Ok_0.bin()) == s.bin,
        },
{
    let bin = match s.bin {
        Some(bin) => bin,
        None => {
            let unnamed = join2(assistant.as_str(), " not on PATH");
            return Err(
                skip(
                    match target {
                        TargetId::Codex => "codex not on PATH",
                        TargetId::Pi =>
                            "pi-coding-agent/pi not found; set PI_BRIDGE_PI_BIN to the Pi CLI",
                        TargetId::Amp => "amp not on PATH",
                        TargetId::Claude => unnamed.as_str(),
                        TargetId::Opencode => "opencode not on PATH",
                        TargetId::Droid => "droid not on PATH",
                        TargetId::Hermes => "hermes not on PATH; set HERMES_BRIDGE_BIN",
                        TargetId::Acp =>
                            "ACP agent (devin, grok, etc.) not found. Set ACP_BRIDGE_AGENT_BIN to an absolute path.",
                    },
                ),
            );
        },
    };
    match target {
        TargetId::Codex => Ok(Prereq::Codex { bin }),
        TargetId::Pi => {
            if let Some(e) = &s.probe {
                if let Err(why) = check_pi_oneshot(e) {
                    return Err(why);
                }
            }
            Ok(Prereq::Pi { bin })
        },
        TargetId::Amp => if s.auth {
            Ok(Prereq::Amp { bin })
        } else {
            Err(skip("amp auth unavailable: set AMP_API_KEY or run amp login"))
        },
        TargetId::Claude => Ok(Prereq::Claude { bin }),
        TargetId::Opencode => Ok(Prereq::Opencode { bin }),
        TargetId::Droid => if s.auth {
            Ok(Prereq::Droid { bin })
        } else {
            Err(skip("droid auth unavailable: set FACTORY_API_KEY or run droid login"))
        },
        TargetId::Hermes => {
            if let Some(e) = &s.probe {
                if let Err(why) = check_hermes_oneshot(e) {
                    return Err(why);
                }
            }
            Ok(Prereq::Hermes { bin })
        },
        TargetId::Acp => Ok(Prereq::Acp { bin }),
    }
}

} // verus!
