use vstd::prelude::*;
use std::collections::HashMap;
use crate::errors::OpError;

verus! {

broadcast use vstd::std_specs::hash::group_hash_axioms;

/// Which of the child's standard streams a host-side pipe end belongs to.
/// The three tags are mutually exclusive categories: each implies a
/// different direction of use.
#[derive(Clone, Copy, PartialEq, Eq, Structural, Debug)]
pub enum StreamKind {
    Stdin,
    Stdout,
    Stderr,
}

/// Termination state of a managed process, as last observed by a waiter.
#[derive(Clone, Copy, PartialEq, Eq, Structural, Debug)]
pub enum TermStatus {
    /// Termination has not been observed yet.
    Running,
    /// Observed to have exited with this exit code.
    ExitedCode(i32),
    /// Observed to have been terminated by this signal.
    ExitedSignal(i32),
}

/// A host-side pipe end to a child, tagged by which stream it is.
#[derive(Debug)]
pub enum StreamPayload {
    Stdin(tokio::process::ChildStdin),
    Stdout(tokio::process::ChildStdout),
    Stderr(tokio::process::ChildStderr),
}

impl StreamPayload {
    pub open spec fn kind(&self) -> StreamKind {
        match self {
            StreamPayload::Stdin(_) => StreamKind::Stdin,
            StreamPayload::Stdout(_) => StreamKind::Stdout,
            StreamPayload::Stderr(_) => StreamKind::Stderr,
        }
    }
}

/// A registered process: its OS process id (assigned at spawn, immutable),
/// its termination state as last observed, and the owned OS handle.
#[derive(Debug)]
pub struct ProcessEntry {
    pub pid: u32,
    pub status: TermStatus,
    pub child: tokio::process::Child,
}

/// One registered object: a managed process, a child-stream pipe end, or a
/// duplicable file resource the host registered on its own.
#[derive(Debug)]
pub enum Entry {
    Process(ProcessEntry),
    Stream(StreamPayload),
    File(tokio::fs::File),
}

/// What the verifier sees of an entry: everything but the opaque OS value.
pub enum EntryModel {
    Process { pid: u32, status: TermStatus },
    Stream { kind: StreamKind },
    File,
}

impl Entry {
    pub open spec fn model(&self) -> EntryModel {
        match self {
            Entry::Process(p) => EntryModel::Process { pid: p.pid, status: p.status },
            Entry::Stream(s) => EntryModel::Stream { kind: s.kind() },
            Entry::File(_) => EntryModel::File,
        }
    }

    /// The on-remove hook's decision: removing a process entry whose process
    /// has not been observed as terminated must kill the OS process before
    /// the entry is discarded, so that no running child outlives its handle.
    pub fn must_kill_on_remove(&self) -> (r: bool)
        ensures
            r == (self.model() matches EntryModel::Process {
                pid: _,
                status: TermStatus::Running,
            }),
    {
        match self {
            Entry::Process(p) => matches!(p.status, TermStatus::Running),
            _ => false,
        }
    }
}

/// The key-to-object table addressed by small integers. Identifiers are
/// handed out from a counter starting at 1, so 0 is never a live identifier
/// and an identifier is never handed out twice by the same registry.
pub struct Registry {
    table: HashMap<u32, Entry>,
    next_rid: u32,
}

impl Registry {
    /// The entry registered under an identifier, as the verifier sees it.
    pub closed spec fn entry_at(self, rid: u32) -> Option<EntryModel> {
        if self.table@.contains_key(rid) {
            Some(self.table@[rid].model())
        } else {
            None
        }
    }

    /// The identifier the next insertion will receive.
    pub closed spec fn next_id(self) -> u32 {
        self.next_rid
    }

    /// Every live identifier is at least 1 and below the counter.
    pub closed spec fn wf(self) -> bool {
        &&& self.next_rid >= 1
        &&& forall|r: u32| self.table@.contains_key(r) ==> 1 <= r < self.next_rid
    }

    pub fn new() -> (r: Registry)
        ensures
            r.wf(),
            r.next_id() == 1,
            forall|q: u32| r.entry_at(q) == None::<EntryModel>,
    {
        Registry { table: HashMap::new(), next_rid: 1 }
    }

    /// An identifier this registry never handed out — 0, or at or above the
    /// allocation counter — resolves to no entry at all. By the contract of
    /// `take_process`, an Exit Waiter invoked with such an identifier returns
    /// `BadResourceId` at once, leaving the registry unchanged; by the
    /// contract of `plan_run`, a spawn asked to duplicate from it returns
    /// `BadResourceId` before any OS action.
    pub proof fn lemma_unknown_identifier(self, rid: u32)
        requires
            self.wf(),
            rid == 0 || rid >= self.next_id(),
        ensures
            self.entry_at(rid) == None::<EntryModel>,
    {
    }

    /// Insert one object, obtaining a fresh identifier for it.
    pub fn register(&mut self, e: Entry) -> (rid: u32)
        requires
            old(self).wf(),
            old(self).next_id() < u32::MAX,
        ensures
            final(self).wf(),
            rid == old(self).next_id(),
            rid >= 1,
            old(self).entry_at(rid) == None::<EntryModel>,
            final(self).entry_at(rid) == Some(e.model()),
            final(self).next_id() == old(self).next_id() + 1,
            forall|q: u32| q != rid ==> final(self).entry_at(q) == old(self).entry_at(q),
    {
        let rid = self.next_rid;
        self.table.insert(rid, e);
        self.next_rid = self.next_rid + 1;
        rid
    }

    /// Whether one more spawn — at most four registrations — still fits
    /// under the identifier counter's limit.
    pub fn has_spawn_capacity(&self) -> (r: bool)
        ensures
            r == (self.next_id() <= u32::MAX - 4),
    {
        self.next_rid <= u32::MAX - 4
    }

    /// Whether an identifier resolves to a resource whose OS stream may be
    /// duplicated into a child: only file resources qualify.
    pub fn is_dup_file(&self, rid: u32) -> (r: bool)
        ensures
            r == (self.entry_at(rid) matches Some(EntryModel::File)),
    {
        match self.table.get(&rid) {
            Some(Entry::File(_)) => true,
            _ => false,
        }
    }

    /// Remove one entry regardless of kind. Before discarding a removed
    /// process entry the caller must consult `must_kill_on_remove`.
    pub fn remove(&mut self, rid: u32) -> (r: Option<Entry>)
        requires
            old(self).wf(),
        ensures
            final(self).wf(),
            final(self).next_id() == old(self).next_id(),
            final(self).entry_at(rid) == None::<EntryModel>,
            forall|q: u32| q != rid ==> final(self).entry_at(q) == old(self).entry_at(q),
            match r {
                Some(e) => old(self).entry_at(rid) == Some(e.model()),
                None => old(self).entry_at(rid) == None::<EntryModel>,
            },
    {
        self.table.remove(&rid)
    }

    /// Locate a managed process by identifier and take it out for one step.
    /// An identifier that does not resolve to a process is `BadResourceId`,
    /// surfaced immediately and leaving the registry unchanged.
    pub fn take_process(&mut self, rid: u32) -> (r: Result<ProcessEntry, OpError>)
        requires
            old(self).wf(),
        ensures
            final(self).wf(),
            final(self).next_id() == old(self).next_id(),
            match r {
                Ok(p) => {
                    &&& old(self).entry_at(rid) == Some(
                        EntryModel::Process { pid: p.pid, status: p.status },
                    )
                    &&& 1 <= rid < old(self).next_id()
                    &&& final(self).entry_at(rid) == None::<EntryModel>
                    &&& forall|q: u32|
                        q != rid ==> final(self).entry_at(q) == old(self).entry_at(q)
                },
                Err(e) => {
                    &&& e == OpError::BadResourceId
                    &&& !(old(self).entry_at(rid) matches Some(EntryModel::Process { .. }))
                    &&& forall|q: u32| final(self).entry_at(q) == old(self).entry_at(q)
                },
            },
    {
        match self.table.remove(&rid) {
            Some(Entry::Process(p)) => Ok(p),
            Some(other) => {
                self.table.insert(rid, other);
                Err(OpError::BadResourceId)
            },
            None => Err(OpError::BadResourceId),
        }
    }

    /// Put a process back under its identifier after a step that took it.
    pub fn restore_process(&mut self, rid: u32, p: ProcessEntry)
        requires
            old(self).wf(),
            old(self).entry_at(rid) == None::<EntryModel>,
            1 <= rid < old(self).next_id(),
        ensures
            final(self).wf(),
            final(self).next_id() == old(self).next_id(),
            final(self).entry_at(rid) == Some(
                EntryModel::Process { pid: p.pid, status: p.status },
            ),
            forall|q: u32| q != rid ==> final(self).entry_at(q) == old(self).entry_at(q),
    {
        self.table.insert(rid, Entry::Process(p));
    }

    /// Take a duplicable file resource out, to duplicate its OS stream.
    /// Any other identifier is `BadResourceId`, leaving the registry as it was.
    pub fn take_file(&mut self, rid: u32) -> (r: Result<tokio::fs::File, OpError>)
        requires
            old(self).wf(),
        ensures
            final(self).wf(),
            final(self).next_id() == old(self).next_id(),
            match r {
                Ok(_) => {
                    &&& old(self).entry_at(rid) == Some(EntryModel::File)
                    &&& 1 <= rid < old(self).next_id()
                    &&& final(self).entry_at(rid) == None::<EntryModel>
                    &&& forall|q: u32|
                        q != rid ==> final(self).entry_at(q) == old(self).entry_at(q)
                },
                Err(e) => {
                    &&& e == OpError::BadResourceId
                    &&& !(old(self).entry_at(rid) matches Some(EntryModel::File))
                    &&& forall|q: u32| final(self).entry_at(q) == old(self).entry_at(q)
                },
            },
    {
        match self.table.remove(&rid) {
            Some(Entry::File(f)) => Ok(f),
            Some(other) => {
                self.table.insert(rid, other);
                Err(OpError::BadResourceId)
            },
            None => Err(OpError::BadResourceId),
        }
    }

    /// Put a file resource back under its identifier: duplication borrows
    /// the original only transiently and never consumes it.
    pub fn restore_file(&mut self, rid: u32, f: tokio::fs::File)
        requires
            old(self).wf(),
            old(self).entry_at(rid) == None::<EntryModel>,
            1 <= rid < old(self).next_id(),
        ensures
            final(self).wf(),
            final(self).next_id() == old(self).next_id(),
            final(self).entry_at(rid) == Some(EntryModel::File),
            forall|q: u32| q != rid ==> final(self).entry_at(q) == old(self).entry_at(q),
    {
        self.table.insert(rid, Entry::File(f));
    }

    /// Take a child-stream pipe end out, handing its I/O to the host's
    /// generic stream machinery. Any other identifier is `BadResourceId`.
    pub fn take_stream(&mut self, rid: u32) -> (r: Result<StreamPayload, OpError>)
        requires
            old(self).wf(),
        ensures
            final(self).wf(),
            final(self).next_id() == old(self).next_id(),
            match r {
                Ok(s) => {
                    &&& old(self).entry_at(rid) == Some(EntryModel::Stream { kind: s.kind() })
                    &&& 1 <= rid < old(self).next_id()
                    &&& final(self).entry_at(rid) == None::<EntryModel>
                    &&& forall|q: u32|
                        q != rid ==> final(self).entry_at(q) == old(self).entry_at(q)
                },
                Err(e) => {
                    &&& e == OpError::BadResourceId
                    &&& !(old(self).entry_at(rid) matches Some(EntryModel::Stream { .. }))
                    &&& forall|q: u32| final(self).entry_at(q) == old(self).entry_at(q)
                },
            },
    {
        match self.table.remove(&rid) {
            Some(Entry::Stream(s)) => Ok(s),
            Some(other) => {
                self.table.insert(rid, other);
                Err(OpError::BadResourceId)
            },
            None => Err(OpError::BadResourceId),
        }
    }
}

} // verus!
