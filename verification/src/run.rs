use vstd::prelude::*;
use crate::errors::OpError;
use crate::perms::Permissions;
use crate::registry::{Entry, EntryModel, ProcessEntry, Registry, StreamKind, StreamPayload, TermStatus};
use crate::stdio::{is_valid_mode, route_of, route_stream, StreamRoute};

verus! {

/// A spawn request as the host's decoder hands it over: the command line
/// (first element is the executable), an optional working directory, ordered
/// environment overrides, and per standard stream a symbolic mode plus a
/// registry identifier (0 = none supplied; above 0 the identifier wins).
pub struct SpawnRequest {
    pub cmd: Vec<String>,
    pub cwd: Option<String>,
    pub env: Vec<(String, String)>,
    pub stdin: String,
    pub stdout: String,
    pub stderr: String,
    pub stdin_rid: u32,
    pub stdout_rid: u32,
    pub stderr_rid: u32,
}

impl SpawnRequest {
    /// What the trusted upstream decoder guarantees: a non-empty command
    /// line, and a recognized mode wherever no identifier overrides it.
    pub open spec fn wf(self) -> bool {
        &&& self.cmd@.len() >= 1
        &&& self.stdin_rid == 0 ==> is_valid_mode(self.stdin@)
        &&& self.stdout_rid == 0 ==> is_valid_mode(self.stdout@)
        &&& self.stderr_rid == 0 ==> is_valid_mode(self.stderr@)
    }
}

/// Everything the OS launch step needs, fixed before any OS action: the
/// command line and environment as requested, one resolved route per stream,
/// and the instruction to kill the child if its handle is dropped while it
/// still runs.
#[derive(Debug)]
pub struct SpawnPlan {
    pub cmd: Vec<String>,
    pub cwd: Option<String>,
    pub env: Vec<(String, String)>,
    pub stdin: StreamRoute,
    pub stdout: StreamRoute,
    pub stderr: StreamRoute,
    pub kill_on_drop: bool,
}

/// Whether a stream's identifier can be honoured: 0 means no duplication is
/// asked for; otherwise the identifier must name a duplicable file resource.
pub open spec fn dup_ok(reg: Registry, rid: u32) -> bool {
    rid == 0 || reg.entry_at(rid) == Some(EntryModel::File)
}

/// The whole planning step: the capability pre-check first (denial leaves no
/// trace), then each stream's identifier is held against the registry, then
/// the routes are fixed. Exactly one of `PermissionDenied`, `BadResourceId`
/// or a complete plan comes out.
pub open spec fn run_plan(perms: Permissions, reg: Registry, req: SpawnRequest) -> Result<
    SpawnPlan,
    OpError,
> {
    if !perms.allows_run() {
        Err(OpError::PermissionDenied)
    } else if !(dup_ok(reg, req.stdin_rid) && dup_ok(reg, req.stdout_rid) && dup_ok(
        reg,
        req.stderr_rid,
    )) {
        Err(OpError::BadResourceId)
    } else {
        Ok(
            SpawnPlan {
                cmd: req.cmd,
                cwd: req.cwd,
                env: req.env,
                stdin: route_of(req.stdin@, req.stdin_rid),
                stdout: route_of(req.stdout@, req.stdout_rid),
                stderr: route_of(req.stderr@, req.stderr_rid),
                kill_on_drop: true,
            },
        )
    }
}

/// The Process Launcher's decision steps: perform the capability pre-check,
/// resolve the three streams (duplication validated against the registry and
/// taking precedence over the symbolic mode), and assemble the command. No
/// OS action is taken and nothing is registered: the host executes the
/// returned plan and brings the outcome to `register_spawn`.
pub fn plan_run(perms: &Permissions, reg: &Registry, req: SpawnRequest) -> (r: Result<
    SpawnPlan,
    OpError,
>)
    requires
        req.wf(),
        reg.wf(),
    ensures
        r == run_plan(*perms, *reg, req),
{
    match perms.check_run() {
        Err(e) => Err(e),
        Ok(()) => {
            if !(reg.is_dup_file(req.stdin_rid) || req.stdin_rid == 0) {
                Err(OpError::BadResourceId)
            } else if !(reg.is_dup_file(req.stdout_rid) || req.stdout_rid == 0) {
                Err(OpError::BadResourceId)
            } else if !(reg.is_dup_file(req.stderr_rid) || req.stderr_rid == 0) {
                Err(OpError::BadResourceId)
            } else {
                let stdin = route_stream(req.stdin.as_str(), req.stdin_rid);
                let stdout = route_stream(req.stdout.as_str(), req.stdout_rid);
                let stderr = route_stream(req.stderr.as_str(), req.stderr_rid);
                Ok(
                    SpawnPlan {
                        cmd: req.cmd,
                        cwd: req.cwd,
                        env: req.env,
                        stdin,
                        stdout,
                        stderr,
                        kill_on_drop: true,
                    },
                )
            }
        },
    }
}

/// The result of a successful spawn: the process entry's identifier, the OS
/// process id, and per stream an identifier present exactly when a pipe was
/// created host-side.
#[derive(Clone, Copy, PartialEq, Eq, Structural, Debug)]
pub struct SpawnResult {
    pub rid: u32,
    pub pid: u32,
    pub stdin_rid: Option<u32>,
    pub stdout_rid: Option<u32>,
    pub stderr_rid: Option<u32>,
}

/// Two optional identifiers that never name the same entry.
pub open spec fn distinct_ids(a: Option<u32>, b: Option<u32>) -> bool {
    match (a, b) {
        (Some(x), Some(y)) => x != y,
        _ => true,
    }
}

/// The registration step after the OS spawned the child: wrap each pipe end
/// the OS handed back as a stream resource tagged by its stream, register
/// them, then register the process itself (not yet observed as terminated).
/// Each identifier in the result names exactly the entry it was created for,
/// the identifiers are pairwise distinct and fresh, and nothing already
/// registered is touched.
pub fn register_spawn(
    reg: &mut Registry,
    child: tokio::process::Child,
    pid: u32,
    stdin_pipe: Option<tokio::process::ChildStdin>,
    stdout_pipe: Option<tokio::process::ChildStdout>,
    stderr_pipe: Option<tokio::process::ChildStderr>,
) -> (r: SpawnResult)
    requires
        old(reg).wf(),
        old(reg).next_id() <= u32::MAX - 4,
    ensures
        final(reg).wf(),
        r.pid == pid,
        r.stdin_rid is Some <==> stdin_pipe is Some,
        r.stdout_rid is Some <==> stdout_pipe is Some,
        r.stderr_rid is Some <==> stderr_pipe is Some,
        (r.stdin_rid matches Some(i) ==> final(reg).entry_at(i) == Some(
            EntryModel::Stream { kind: StreamKind::Stdin },
        ) && old(reg).entry_at(i) == None::<EntryModel> && i != r.rid),
        (r.stdout_rid matches Some(i) ==> final(reg).entry_at(i) == Some(
            EntryModel::Stream { kind: StreamKind::Stdout },
        ) && old(reg).entry_at(i) == None::<EntryModel> && i != r.rid),
        (r.stderr_rid matches Some(i) ==> final(reg).entry_at(i) == Some(
            EntryModel::Stream { kind: StreamKind::Stderr },
        ) && old(reg).entry_at(i) == None::<EntryModel> && i != r.rid),
        distinct_ids(r.stdin_rid, r.stdout_rid),
        distinct_ids(r.stdin_rid, r.stderr_rid),
        distinct_ids(r.stdout_rid, r.stderr_rid),
        final(reg).entry_at(r.rid) == Some(
            EntryModel::Process { pid: pid, status: TermStatus::Running },
        ),
        old(reg).entry_at(r.rid) == None::<EntryModel>,
        forall|q: u32|
            (Some(q) != r.stdin_rid && Some(q) != r.stdout_rid && Some(q) != r.stderr_rid && q
                != r.rid) ==> final(reg).entry_at(q) == old(reg).entry_at(q),
{
    let stdin_rid: Option<u32> = match stdin_pipe {
        Some(p) => Some(reg.register(Entry::Stream(StreamPayload::Stdin(p)))),
        None => None,
    };
    let stdout_rid: Option<u32> = match stdout_pipe {
        Some(p) => Some(reg.register(Entry::Stream(StreamPayload::Stdout(p)))),
        None => None,
    };
    let stderr_rid: Option<u32> = match stderr_pipe {
        Some(p) => Some(reg.register(Entry::Stream(StreamPayload::Stderr(p)))),
        None => None,
    };
    let rid = reg.register(
        Entry::Process(ProcessEntry { pid, status: TermStatus::Running, child }),
    );
    SpawnResult { rid, pid, stdin_rid, stdout_rid, stderr_rid }
}

} // verus!
