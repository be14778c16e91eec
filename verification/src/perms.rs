use vstd::prelude::*;
use crate::errors::OpError;

verus! {

/// The externally configured capability gate: whether running and signalling
/// subprocesses is permitted at all. Spawn, await-exit and kill each consult
/// it before any OS-level action.
pub struct Permissions {
    allow_run: bool,
}

/// What the pre-check returns: permission to go ahead, or `PermissionDenied`.
pub open spec fn precheck(perms: Permissions) -> Result<(), OpError> {
    if perms.allows_run() {
        Ok(())
    } else {
        Err(OpError::PermissionDenied)
    }
}

impl Permissions {
    /// Whether running and signalling subprocesses is permitted.
    pub closed spec fn allows_run(self) -> bool {
        self.allow_run
    }

    pub fn new(allow_run: bool) -> (r: Permissions)
        ensures
            r.allows_run() == allow_run,
    {
        Permissions { allow_run }
    }

    /// The capability pre-check: succeeds exactly when running
    /// subprocesses is permitted, and otherwise gives `PermissionDenied`.
    pub fn check_run(&self) -> (r: Result<(), OpError>)
        ensures
            r == precheck(*self),
    {
        if self.allow_run {
            Ok(())
        } else {
            Err(OpError::PermissionDenied)
        }
    }
}

} // verus!
