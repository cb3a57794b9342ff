//! How targets are started.

use vstd::prelude::*;

use crate::text::owned;

verus! {

/// What is needed to start a target.
pub struct TargetSpawn {
    pub bridge_bin: Option<String>,
    pub backend_bin: Option<String>,
}

/// How the bridge to an ACP agent is started.
pub struct AcpLaunch {
    pub program: String,
    /// Value of `ACP_BRIDGE_AGENT_BIN`.
    pub agent_bin: String,
    /// Value of `ACP_BRIDGE_AGENT_ARGS`.
    pub agent_args: String,
}

/// Plans the start of the bridge to an ACP agent. Both programs have to be known;
/// the agent is called with `acp` unless the environment says otherwise.
pub fn plan_acp(opts: TargetSpawn, args: Option<String>) -> (r: Result<AcpLaunch, String>)
    ensures
        match r {
            Ok(l) => opts.bridge_bin == Some(l.program) && opts.backend_bin == Some(l.agent_bin)
                && l.agent_args@ == (match args {
                Some(a) => a@,
                None => "acp"@,
            }),
            Err(e) => if opts.bridge_bin is None {
                e@ == "acp target requires bridge_bin"@
            } else {
                opts.backend_bin is None && e@ == "acp target requires backend_bin"@
            },
        },
{
    let program = match opts.bridge_bin {
        Some(p) => p,
        None => {
            return Err(owned("acp target requires bridge_bin"));
        },
    };
    let agent_bin = match opts.backend_bin {
        Some(p) => p,
        None => {
            return Err(owned("acp target requires backend_bin"));
        },
    };
    let agent_args = match args {
        Some(a) => a,
        None => owned("acp"),
    };
    Ok(AcpLaunch { program, agent_bin, agent_args })
}

} // verus!
