//! The tracked-process registry: for each process id seen by the latest
//! discovery, the settings last applied to it.
use vstd::prelude::*;
use std::collections::HashMap;
use crate::reconcile::{fresh_session, Phase, ReconcileSession};

verus! {

broadcast use vstd::std_specs::hash::group_hash_axioms;

/// What is known of one tracked process.
#[derive(Clone, Copy, Debug, PartialEq, Eq)]
pub struct ProcessInstance {
    pub pid: u32,
    pub last_applied_affinity: Option<u64>,
    pub last_applied_priority: Option<u32>,
}

/// A process seen for the first time: nothing applied yet.
pub open spec fn fresh_instance(pid: u32) -> ProcessInstance {
    ProcessInstance { pid, last_applied_affinity: None, last_applied_priority: None }
}

/// The registry after `pid` is tracked: unchanged if it already was.
pub open spec fn with_tracked(m: Map<u32, ProcessInstance>, pid: u32) -> Map<u32, ProcessInstance> {
    if m.contains_key(pid) {
        m
    } else {
        m.insert(pid, fresh_instance(pid))
    }
}

/// The registry reduced to the process ids in `current`.
pub open spec fn pruned(m: Map<u32, ProcessInstance>, current: Seq<u32>) -> Map<
    u32,
    ProcessInstance,
> {
    m.restrict(current.to_set())
}

/// The instance after a successful reconciliation: each setting that was
/// (re)applied is recorded as last applied; the others keep their record.
pub open spec fn committed(inst: ProcessInstance, s: ReconcileSession) -> ProcessInstance {
    ProcessInstance {
        pid: inst.pid,
        last_applied_affinity: if s.changes.affinity is Some {
            Some(s.desired_affinity)
        } else {
            inst.last_applied_affinity
        },
        last_applied_priority: if s.changes.priority is Some {
            Some(s.desired_priority)
        } else {
            inst.last_applied_priority
        },
    }
}

/// The registry after session `s` ended: a success commits what was applied
/// (if the process is still tracked), a failure forgets the process.
pub open spec fn after_session(m: Map<u32, ProcessInstance>, s: ReconcileSession) -> Map<
    u32,
    ProcessInstance,
> {
    match s.phase {
        Phase::Done => if m.contains_key(s.pid) {
            m.insert(s.pid, committed(m[s.pid], s))
        } else {
            m
        },
        Phase::Failed(_) => m.remove(s.pid),
        _ => m,
    }
}

/// A session for `pid` that starts from what the registry last applied.
pub open spec fn session_for(
    m: Map<u32, ProcessInstance>,
    pid: u32,
    desired_affinity: u64,
    desired_priority: u32,
) -> ReconcileSession {
    if m.contains_key(pid) {
        fresh_session(
            pid,
            desired_affinity,
            desired_priority,
            m[pid].last_applied_affinity,
            m[pid].last_applied_priority,
        )
    } else {
        fresh_session(pid, desired_affinity, desired_priority, None, None)
    }
}

/// Tracks processes and drives their reconciliation.
pub struct ProcessManager {
    tracked_processes: HashMap<u32, ProcessInstance>,
}

impl View for ProcessManager {
    type V = Map<u32, ProcessInstance>;

    closed spec fn view(&self) -> Map<u32, ProcessInstance> {
        self.tracked_processes@
    }
}

/// Every entry is filed under its own process id.
pub open spec fn keyed_by_pid(m: Map<u32, ProcessInstance>) -> bool {
    forall|pid: u32| #[trigger] m.contains_key(pid) ==> m[pid].pid == pid
}

impl ProcessManager {
    /// The registry is well formed.
    pub open spec fn wf(&self) -> bool {
        keyed_by_pid(self@)
    }

    /// An empty registry.
    pub fn new() -> (r: ProcessManager)
        ensures
            r@ == Map::<u32, ProcessInstance>::empty(),
            r.wf(),
    {
        ProcessManager { tracked_processes: HashMap::new() }
    }

    /// All tracked instances, by process id.
    pub fn get_tracked_processes(&self) -> (r: &HashMap<u32, ProcessInstance>)
        ensures
            r@ == self@,
    {
        &self.tracked_processes
    }

    /// The tracked instance of `pid`, if any.
    pub fn get(&self, pid: u32) -> (r: Option<ProcessInstance>)
        ensures
            r == (if self@.contains_key(pid) {
                Some(self@[pid])
            } else {
                None
            }),
    {
        match self.tracked_processes.get(&pid) {
            Some(inst) => Some(*inst),
            None => None,
        }
    }

    /// Starts tracking `pid` with nothing applied yet, unless it is already
    /// tracked; says whether it was new.
    pub fn insert_if_absent(&mut self, pid: u32) -> (is_new: bool)
        requires
            old(self).wf(),
        ensures
            is_new == !old(self)@.contains_key(pid),
            final(self)@ == with_tracked(old(self)@, pid),
            final(self).wf(),
    {
        if self.tracked_processes.contains_key(&pid) {
            false
        } else {
            self.tracked_processes.insert(
                pid,
                ProcessInstance { pid, last_applied_affinity: None, last_applied_priority: None },
            );
            true
        }
    }

    /// Stops tracking `pid`.
    pub fn remove(&mut self, pid: u32)
        requires
            old(self).wf(),
        ensures
            final(self)@ == old(self)@.remove(pid),
            final(self).wf(),
    {
        self.tracked_processes.remove(&pid);
    }

    /// Stops tracking every process.
    pub fn clear(&mut self)
        ensures
            final(self)@ == Map::<u32, ProcessInstance>::empty(),
            final(self).wf(),
    {
        self.tracked_processes.clear();
    }

    /// Forgets every tracked process whose id is not in `current`.
    pub fn retain_only(&mut self, current: &[u32])
        requires
            old(self).wf(),
        ensures
            final(self)@ == pruned(old(self)@, current@),
            final(self).wf(),
    {
        let mut kept: HashMap<u32, ProcessInstance> = HashMap::new();
        let mut k: usize = 0;
        while k < current.len()
            invariant
                k <= current@.len(),
                forall|pid: u32| #[trigger]
                    kept@.contains_key(pid) <==> (self@.contains_key(pid) && exists|j: int|
                        0 <= j < k && current@[j] == pid),
                forall|pid: u32| #[trigger] kept@.contains_key(pid) ==> kept@[pid] == self@[pid],
            decreases current@.len() - k,
        {
            let pid = current[k];
            match self.tracked_processes.get(&pid) {
                Some(inst) => {
                    kept.insert(pid, *inst);
                },
                None => {},
            }
            k = k + 1;
        }
        proof {
            assert forall|pid: u32| current@.to_set().contains(pid) <==> (exists|j: int|
                0 <= j < current@.len() && current@[j] == pid) by {
                if current@.to_set().contains(pid) {
                    assert(current@.contains(pid));
                }
            }
            assert(kept@ =~= pruned(self@, current@));
        }
        self.tracked_processes = kept;
    }

    /// Starts reconciling `pid` from the values last applied to it.
    pub fn begin_reconcile(&self, pid: u32, desired_affinity: u64, desired_priority: u32) -> (s:
        ReconcileSession)
        ensures
            s == session_for(self@, pid, desired_affinity, desired_priority),
    {
        match self.tracked_processes.get(&pid) {
            Some(inst) => ReconcileSession::new(
                pid,
                desired_affinity,
                desired_priority,
                inst.last_applied_affinity,
                inst.last_applied_priority,
            ),
            None => ReconcileSession::new(pid, desired_affinity, desired_priority, None, None),
        }
    }

    /// Records the end of session `s`: on success the settings it applied
    /// become the last applied ones; on failure the process is forgotten, so
    /// that the next tick treats it as new.
    pub fn commit_reconcile(&mut self, s: &ReconcileSession)
        requires
            old(self).wf(),
        ensures
            final(self)@ == after_session(old(self)@, *s),
            final(self).wf(),
    {
        match s.phase {
            Phase::Done => {
                match self.tracked_processes.get(&s.pid) {
                    Some(inst) => {
                        let mut updated = *inst;
                        if s.changes.affinity.is_some() {
                            updated.last_applied_affinity = Some(s.desired_affinity);
                        }
                        if s.changes.priority.is_some() {
                            updated.last_applied_priority = Some(s.desired_priority);
                        }
                        self.tracked_processes.insert(s.pid, updated);
                    },
                    None => {},
                }
            },
            Phase::Failed(_) => {
                self.tracked_processes.remove(&s.pid);
            },
            _ => {},
        }
    }
}

impl Default for ProcessManager {
    fn default() -> (r: ProcessManager)
        ensures
            r@ == Map::<u32, ProcessInstance>::empty(),
            r.wf(),
    {
        ProcessManager::new()
    }
}

} // verus!
