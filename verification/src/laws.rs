use vstd::prelude::*;
use crate::errors::OpError;
use crate::kill::{kill_outcome, KillRequest};
use crate::perms::{precheck, Permissions};
use crate::registry::Registry;
use crate::run::{dup_ok, run_plan, SpawnPlan, SpawnRequest};
use crate::status::{exit_report, RunStatus};
use crate::stdio::{route_of, StdioMode, StreamRoute};

verus! {

/// A valid spawn request that routes its standard output as `piped` — the
/// mode is the word "piped" and no identifier overrides it — is planned, when
/// permission is granted and the other streams' identifiers resolve, with a
/// plan whose stdout route asks the OS for a fresh pipe. Together with the
/// contract of `register_spawn` (a pipe handed back by the OS is registered
/// under an identifier present in the result), every such spawn reports a
/// present stdout identifier.
pub proof fn lemma_piped_stdout_planned(perms: Permissions, reg: Registry, req: SpawnRequest)
    requires
        req.wf(),
        perms.allows_run(),
        dup_ok(reg, req.stdin_rid),
        dup_ok(reg, req.stderr_rid),
        req.stdout_rid == 0,
        req.stdout@ == "piped"@,
    ensures
        run_plan(perms, reg, req) matches Ok(p) && p.stdout == StreamRoute::Configure(
            StdioMode::Piped,
        ),
{
    reveal_strlit("piped");
    reveal_strlit("inherit");
    assert("piped"@.len() == 5);
    assert("inherit"@.len() == 7);
    assert(req.stdout@ != "inherit"@);
}

/// An identifier above 0 always takes precedence over the symbolic mode: the
/// stream is routed to duplication of exactly that identifier's resource,
/// whatever the mode string says.
pub proof fn lemma_identifier_takes_precedence(mode: Seq<char>, rid: u32)
    requires
        rid > 0,
    ensures
        route_of(mode, rid) == StreamRoute::Duplicate(rid),
{
}

/// When the capability gate denies, every operation of this subsystem — the
/// spawn planner, the Exit Waiter's pre-check, and the Signal Dispatcher —
/// refuses with `PermissionDenied`, and none of them produces a plan or a
/// directive: no process is created and no signal is sent.
pub proof fn lemma_denied_gate(
    perms: Permissions,
    reg: Registry,
    req: SpawnRequest,
    kreq: KillRequest,
)
    requires
        !perms.allows_run(),
    ensures
        run_plan(perms, reg, req) == Err::<SpawnPlan, OpError>(OpError::PermissionDenied),
        precheck(perms) == Err::<(), OpError>(OpError::PermissionDenied),
        kill_outcome(perms, kreq) == Err::<KillRequest, OpError>(OpError::PermissionDenied),
{
}

/// A process that exited with a code, and was not terminated by a signal, is
/// reported with the signal flag down, exactly that code, and the sentinel in
/// the signal slot.
pub proof fn lemma_code_exit_reported(code: i32)
    ensures
        exit_report(Some(code), None) == (RunStatus {
            got_signal: false,
            exit_code: code,
            exit_signal: -1i32,
        }),
{
}

/// A process terminated by a signal, with no exit code, is reported with the
/// signal flag up, exactly that signal, and the sentinel in the code slot.
pub proof fn lemma_signal_exit_reported(signal: i32)
    ensures
        exit_report(None, Some(signal)) == (RunStatus {
            got_signal: true,
            exit_code: -1i32,
            exit_signal: signal,
        }),
{
}

} // verus!
