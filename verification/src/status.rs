use vstd::prelude::*;
use crate::registry::{ProcessEntry, TermStatus};

verus! {

/// How a process terminated, in one shape on every platform: the flag says
/// whether termination was via a signal; the numeric slot that does not
/// apply holds the sentinel -1.
#[derive(Clone, Copy, PartialEq, Eq, Structural, Debug)]
pub struct RunStatus {
    pub got_signal: bool,
    pub exit_code: i32,
    pub exit_signal: i32,
}

/// The report owed for a terminated process: the exit code if the process
/// exited with one, else the signal that terminated it, each missing slot
/// filled with the sentinel.
pub open spec fn exit_report(code: Option<i32>, signal: Option<i32>) -> RunStatus {
    RunStatus {
        got_signal: signal is Some,
        exit_code: match code {
            Some(c) => c,
            None => -1i32,
        },
        exit_signal: match signal {
            Some(s) => s,
            None => -1i32,
        },
    }
}

/// The termination state a waiter records from the same observation.
pub open spec fn observed_status(code: Option<i32>, signal: Option<i32>) -> TermStatus {
    match signal {
        Some(s) => TermStatus::ExitedSignal(s),
        None => match code {
            Some(c) => TermStatus::ExitedCode(c),
            None => TermStatus::Running,
        },
    }
}

/// Compute the host-visible termination report. Every terminated process
/// must report an exit code or a signal; an observation with neither is a
/// defect in the platform extraction, ruled out here rather than handled.
pub fn exit_result(code: Option<i32>, signal: Option<i32>) -> (r: RunStatus)
    requires
        code is Some || signal is Some,
    ensures
        r == exit_report(code, signal),
{
    RunStatus {
        got_signal: signal.is_some(),
        exit_code: match code {
            Some(c) => c,
            None => -1,
        },
        exit_signal: match signal {
            Some(s) => s,
            None => -1,
        },
    }
}

/// The Exit Waiter's completing step, after the OS reported termination with
/// the given exit code and/or signal: fold the observation into the entry
/// (the process id never changes) and produce the report. The report always
/// reflects exactly this observation, never a stale one.
pub fn waiter_observe(p: ProcessEntry, code: Option<i32>, signal: Option<i32>) -> (r: (
    ProcessEntry,
    RunStatus,
))
    requires
        code is Some || signal is Some,
    ensures
        r.0.pid == p.pid,
        r.0.status == observed_status(code, signal),
        r.1 == exit_report(code, signal),
{
    let status = match signal {
        Some(s) => TermStatus::ExitedSignal(s),
        None => match code {
            Some(c) => TermStatus::ExitedCode(c),
            None => TermStatus::Running,
        },
    };
    let report = exit_result(code, signal);
    (ProcessEntry { pid: p.pid, status, child: p.child }, report)
}

} // verus!
