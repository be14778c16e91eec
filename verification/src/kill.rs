use vstd::prelude::*;
use crate::errors::OpError;
use crate::perms::Permissions;

verus! {

/// A kill request: a target OS process id — registered here or not — and the
/// signal number to deliver to it.
#[derive(Clone, Copy, PartialEq, Eq, Structural, Debug)]
pub struct KillRequest {
    pub pid: i32,
    pub signo: i32,
}

/// What the Signal Dispatcher decides: with permission, exactly the requested
/// (pid, signal) pair goes to the OS; without it, nothing does.
pub open spec fn kill_outcome(perms: Permissions, req: KillRequest) -> Result<
    KillRequest,
    OpError,
> {
    if perms.allows_run() {
        Ok(req)
    } else {
        Err(OpError::PermissionDenied)
    }
}

/// The Signal Dispatcher's decision step: the capability pre-check, then the
/// directive to deliver. No signal is sent here; the host delivers exactly
/// what comes back, and maps an OS refusal to `SignalDeliveryFailure`.
pub fn plan_kill(perms: &Permissions, req: KillRequest) -> (r: Result<KillRequest, OpError>)
    ensures
        r == kill_outcome(*perms, req),
{
    match perms.check_run() {
        Err(e) => Err(e),
        Ok(()) => Ok(req),
    }
}

} // verus!
