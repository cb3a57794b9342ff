//! Buffered commands of the Droid bridge.

use vstd::prelude::*;

use crate::codex::command_exec::{CommandExecParams, CommandExecResponse, exec_json};
use crate::json::ToJson;
use crate::launch::launcher::{ProcessRole, ProcessSpec, StdioMode};
use crate::rpc::{
    Answer, INTERNAL_ERROR, INVALID_PARAMS, JsonRpcError, replied, reply_with, rpc_error, turn_down,
    turned_down,
};
use crate::text::{from_utf8_lossy, lossy, opt_copy, opt_text, texts};

verus! {

/// Bytes of each stream that are kept if the client says nothing.
pub const DEFAULT_OUTPUT_BYTES_CAP: usize = 262_144;

/// Time that a command gets if the client says nothing, in milliseconds.
pub const DEFAULT_TIMEOUT_MS: i64 = 60_000;

/// Bytes that are read at once.
pub const READ_CHUNK: usize = 8192;

/// Why a command is not executed, if it is not.
pub open spec fn command_refusal(p: CommandExecParams) -> Option<Seq<char>> {
    if p.command@.len() == 0 {
        Some("empty command argv"@)
    } else if p.tty || p.stream_stdin || p.stream_stdout_stderr {
        Some("droid-bridge command/exec supports buffered non-tty exec only"@)
    } else if p.disable_output_cap && p.output_bytes_cap is Some {
        Some("disableOutputCap cannot be combined with outputBytesCap"@)
    } else if p.disable_timeout && p.timeout_ms is Some {
        Some("disableTimeout cannot be combined with timeoutMs"@)
    } else {
        None
    }
}

/// How many bytes of each stream are kept.
pub open spec fn output_cap(p: CommandExecParams) -> usize {
    if p.disable_output_cap {
        usize::MAX
    } else {
        match p.output_bytes_cap {
            Some(c) => c,
            None => DEFAULT_OUTPUT_BYTES_CAP,
        }
    }
}

/// The time that a command gets.
pub open spec fn command_timeout(p: CommandExecParams) -> Option<int> {
    if p.disable_timeout {
        None
    } else {
        let t = match p.timeout_ms {
            Some(t) => t as int,
            None => DEFAULT_TIMEOUT_MS as int,
        };
        Some(
            if t < 0 {
                0
            } else {
                t
            },
        )
    }
}

/// The variables that a command gets: those that have a value, in order.
pub open spec fn set_vars(s: Seq<(String, Option<String>)>) -> Seq<(Seq<char>, Seq<char>)>
    decreases s.len(),
{
    if s.len() == 0 {
        seq![]
    } else {
        match s.last().1 {
            Some(v) => set_vars(s.drop_last()).push((s.last().0@, v@)),
            None => set_vars(s.drop_last()),
        }
    }
}

/// A list of variables.
pub open spec fn pair_texts(s: Seq<(String, String)>) -> Seq<(Seq<char>, Seq<char>)> {
    s.map_values(|e: (String, String)| (e.0@, e.1@))
}

fn command_env(vars: &Vec<(String, Option<String>)>) -> (r: Vec<(String, String)>)
    ensures
        pair_texts(r@) == set_vars(vars@),
{
    let mut out: Vec<(String, String)> = Vec::new();
    let mut i: usize = 0;
    assert(pair_texts(out@) =~= set_vars(vars@.take(0)));
    while i < vars.len()
        invariant
            i <= vars@.len(),
            pair_texts(out@) == set_vars(vars@.take(i as int)),
        decreases vars@.len() - i,
    {
        let ghost was = out@;
        assert(vars@.take(i + 1).drop_last() =~= vars@.take(i as int));
        assert(vars@.take(i + 1).last() == vars@[i as int]);
        if let Some(v) = &vars[i].1 {
            let e = (vars[i].0.clone(), v.clone());
            let ghost ge = (e.0@, e.1@);
            out.push(e);
            assert(pair_texts(out@) =~= pair_texts(was).push(ge));
        }
        i += 1;
    }
    assert(vars@.take(i as int) =~= vars@);
    out
}

/// A command that is to be executed.
pub struct CommandPlan {
    pub spec: ProcessSpec,
    /// How many bytes of each stream are kept.
    pub cap: usize,
    /// The time that it gets, in milliseconds.
    pub timeout_ms: Option<u64>,
}

/// Decides whether a command is executed, and how.
pub fn plan_command(p: &CommandExecParams) -> (r: Result<CommandPlan, JsonRpcError>)
    ensures
        match command_refusal(*p) {
            Some(message) => r is Err && r->Err_0.code == INVALID_PARAMS && r->Err_0.message@
                == message,
            None => {
                &&& r is Ok
                &&& ({
                    let plan = r->Ok_0;
                    &&& plan.spec.role == ProcessRole::ToolCommand
                    &&& plan.spec.program@ == p.command@[0]@
                    &&& texts(plan.spec.args@) == texts(p.command@).skip(1)
                    &&& opt_text(plan.spec.cwd) == opt_text(p.cwd)
                    &&& pair_texts(plan.spec.env@) == (match p.env {
                        Some(vars) => set_vars(vars@),
                        None => seq![],
                    })
                    &&& !plan.spec.env_clear
                    &&& plan.spec.stdin == StdioMode::Null
                    &&& plan.spec.stdout == StdioMode::Piped
                    &&& plan.spec.stderr == StdioMode::Piped
                    &&& plan.cap == output_cap(*p)
                    &&& match plan.timeout_ms {
                        Some(t) => command_timeout(*p) == Some(t as int),
                        None => command_timeout(*p) is None,
                    }
                })
            },
        },
{
    if p.command.len() == 0 {
        return Err(rpc_error(INVALID_PARAMS, "empty command argv"));
    }
    if p.tty || p.stream_stdin || p.stream_stdout_stderr {
        return Err(
            rpc_error(
                INVALID_PARAMS,
                "droid-bridge command/exec supports buffered non-tty exec only",
            ),
        );
    }
    if p.disable_output_cap && p.output_bytes_cap.is_some() {
        return Err(
            rpc_error(INVALID_PARAMS, "disableOutputCap cannot be combined with outputBytesCap"),
        );
    }
    if p.disable_timeout && p.timeout_ms.is_some() {
        return Err(rpc_error(INVALID_PARAMS, "disableTimeout cannot be combined with timeoutMs"));
    }
    let env = match &p.env {
        Some(vars) => command_env(vars),
        None => {
            let none: Vec<(String, String)> = Vec::new();
            assert(pair_texts(none@) =~= seq![]);
            none
        },
    };
    let mut args: Vec<String> = Vec::new();
    let mut i: usize = 1;
    while i < p.command.len()
        invariant
            1 <= i <= p.command@.len(),
            args@.len() == i - 1,
            forall|k: int| 0 <= k < i - 1 ==> (#[trigger] args@[k])@ == p.command@[k + 1]@,
        decreases p.command@.len() - i,
    {
        args.push(p.command[i].clone());
        i += 1;
    }
    assert(texts(args@) =~= texts(p.command@).skip(1));
    let mut spec = ProcessSpec::new(p.command[0].as_str());
    spec.role = ProcessRole::ToolCommand;
    spec.args = args;
    spec.cwd = opt_copy(&p.cwd);
    spec.env = env;
    spec.stdin = StdioMode::Null;
    let cap: usize = if p.disable_output_cap {
        usize::MAX
    } else {
        match p.output_bytes_cap {
            Some(c) => c,
            None => DEFAULT_OUTPUT_BYTES_CAP,
        }
    };
    let timeout_ms: Option<u64> = if p.disable_timeout {
        None
    } else {
        let t: i64 = match p.timeout_ms {
            Some(t) => t,
            None => DEFAULT_TIMEOUT_MS,
        };
        if t < 0 {
            Some(0)
        } else {
            Some(t as u64)
        }
    };
    Ok(CommandPlan { spec, cap, timeout_ms })
}

// ---------------------------------------------------------------------------
// Output
// ---------------------------------------------------------------------------
/// The beginning of a list of bytes.
pub open spec fn capped(bytes: Seq<u8>, cap: nat) -> Seq<u8> {
    if bytes.len() <= cap {
        bytes
    } else {
        bytes.take(cap as int)
    }
}

/// The beginning of what a stream holds.
pub struct CappedOutput {
    kept: Vec<u8>,
    cap: usize,
}

impl CappedOutput {
    /// What is kept.
    pub closed spec fn view(&self) -> Seq<u8> {
        self.kept@
    }

    /// How much can be kept.
    pub closed spec fn limit(&self) -> nat {
        self.cap as nat
    }

    #[verifier::type_invariant]
    closed spec fn inv(self) -> bool {
        self.kept@.len() <= self.cap
    }

    /// Nothing yet.
    pub fn new(cap: usize) -> (r: CappedOutput)
        ensures
            r.view() == Seq::<u8>::empty(),
            r.limit() == cap,
    {
        CappedOutput { kept: Vec::new(), cap }
    }

    /// How many bytes to read next; none once the limit is reached.
    pub fn read_limit(&self) -> (r: usize)
        ensures
            r == (if self.limit() - self.view().len() < READ_CHUNK {
                self.limit() - self.view().len()
            } else {
                READ_CHUNK as int
            }),
            self.view().len() <= self.limit(),
    {
        proof {
            use_type_invariant(self);
        }
        let left: usize = self.cap - self.kept.len();
        if left < READ_CHUNK {
            left
        } else {
            READ_CHUNK
        }
    }

    /// Takes what was read, as far as it fits.
    pub fn accept(&mut self, bytes: &[u8])
        ensures
            final(self).view() == capped(old(self).view() + bytes@, old(self).limit()),
            final(self).limit() == old(self).limit(),
    {
        proof {
            use_type_invariant(&*self);
        }
        let ghost before = self.kept@;
        let cap: usize = self.cap;
        let mut kept: Vec<u8> = Vec::new();
        std::mem::swap(&mut kept, &mut self.kept);
        let mut i: usize = 0;
        let n: usize = bytes.len();
        assert(bytes@.take(0) =~= seq![]);
        while i < n && kept.len() < cap
            invariant
                i <= n,
                n == bytes@.len(),
                kept@ == before + bytes@.take(i as int),
                kept@.len() <= cap,
            decreases n - i,
        {
            kept.push(bytes[i]);
            assert(bytes@.take(i + 1) =~= bytes@.take(i as int).push(bytes@[i as int]));
            i += 1;
        }
        proof {
            if i == n {
                assert(bytes@.take(n as int) =~= bytes@);
            } else {
                assert(kept@ =~= (before + bytes@).take(cap as int));
            }
        }
        self.kept = kept;
    }

    /// What is kept.
    pub fn bytes(&self) -> (r: &[u8])
        ensures
            r@ == self.view(),
    {
        self.kept.as_slice()
    }
}

/// What is kept after some pieces were read.
pub open spec fn kept_of(pieces: Seq<Seq<u8>>, cap: nat) -> Seq<u8>
    decreases pieces.len(),
{
    if pieces.len() == 0 {
        seq![]
    } else {
        capped(kept_of(pieces.drop_last(), cap) + pieces.last(), cap)
    }
}

/// All that was read.
pub open spec fn all_of(pieces: Seq<Seq<u8>>) -> Seq<u8>
    decreases pieces.len(),
{
    if pieces.len() == 0 {
        seq![]
    } else {
        all_of(pieces.drop_last()) + pieces.last()
    }
}

/// However a stream comes in pieces, its beginning up to the limit is kept.
pub proof fn law_beginning_is_kept(pieces: Seq<Seq<u8>>, cap: nat)
    ensures
        kept_of(pieces, cap) == capped(all_of(pieces), cap),
    decreases pieces.len(),
{
    if pieces.len() > 0 {
        law_beginning_is_kept(pieces.drop_last(), cap);
        let a = all_of(pieces.drop_last());
        let p = pieces.last();
        assert(capped(capped(a, cap) + p, cap) =~= capped(a + p, cap));
    }
}

// ---------------------------------------------------------------------------
// Answers
// ---------------------------------------------------------------------------
/// Answers with the outcome of a command.
pub fn command_answer(exit_code: Option<i32>, stdout: &[u8], stderr: &[u8]) -> (r: Answer)
    ensures
        r.view() == replied(
            exec_json(
                match exit_code {
                    Some(c) => c as int,
                    None => -1,
                },
                lossy(stdout@),
                lossy(stderr@),
            ),
        ),
{
    let response = CommandExecResponse {
        exit_code: match exit_code {
            Some(c) => c,
            None => -1,
        },
        stdout: from_utf8_lossy(stdout),
        stderr: from_utf8_lossy(stderr),
    };
    reply_with(response.to_json())
}

/// Why a command that was accepted has no outcome.
pub enum CommandFailure {
    /// It did not end in time.
    TimedOut,
    /// Its standard output could not be read.
    NoStdout,
    /// Its error output could not be read.
    NoStderr,
    /// It could not be started or waited for.
    Failed(String),
}

/// Refuses a command that has no outcome.
pub fn command_failed(why: &CommandFailure) -> (r: Answer)
    ensures
        r.view() == turned_down(
            INTERNAL_ERROR,
            match *why {
                CommandFailure::TimedOut => "command/exec timed out"@,
                CommandFailure::NoStdout => "child stdout was not piped"@,
                CommandFailure::NoStderr => "child stderr was not piped"@,
                CommandFailure::Failed(e) => e@,
            },
        ),
{
    match why {
        CommandFailure::TimedOut => turn_down(INTERNAL_ERROR, "command/exec timed out"),
        CommandFailure::NoStdout => turn_down(INTERNAL_ERROR, "child stdout was not piped"),
        CommandFailure::NoStderr => turn_down(INTERNAL_ERROR, "child stderr was not piped"),
        CommandFailure::Failed(e) => turn_down(INTERNAL_ERROR, e.as_str()),
    }
}

} // verus!
