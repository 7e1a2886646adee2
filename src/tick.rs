//! One polling tick: prune the registry with fresh discovery results, then
//! reconcile each discovered process in turn.
//!
//! A tick is a step machine driven the same way as a single reconciliation:
//! [`Tick::request`] names the next operating-system call, and
//! [`ProcessManager::advance_tick`] takes its answer.
use vstd::prelude::*;
use crate::discovery::DiscoveryError;
use crate::reconcile::{ChangeSummary, OsReply, OsRequest, Phase, ReconcileError, ReconcileSession};
use crate::registry::{
    after_session, pruned, session_for, with_tracked, ProcessInstance, ProcessManager,
};

verus! {

/// One process to reconcile: the target it matched and the settings wanted.
#[derive(Clone, Copy, Debug, PartialEq, Eq)]
pub struct WorkItem {
    pub target: usize,
    pub pid: u32,
    pub affinity_mask: u64,
    pub priority_class: u32,
}

/// The reconciliation in progress.
#[derive(Clone, Copy, Debug, PartialEq, Eq)]
pub struct Active {
    pub target: usize,
    pub is_new: bool,
    pub session: ReconcileSession,
}

/// How the reconciliation of one process ended.
#[derive(Clone, Copy, Debug, PartialEq, Eq)]
pub struct PidOutcome {
    pub target: usize,
    pub pid: u32,
    pub is_new: bool,
    pub result: Result<ChangeSummary, ReconcileError>,
}

/// A tick in progress.
pub struct Tick {
    /// Whether the tick serves a list of named targets rather than one.
    pub multi: bool,
    /// The target names, in configuration order (multi-target ticks).
    pub names: Vec<String>,
    /// Targets whose discovery failed (multi-target ticks).
    pub discovery_errors: Vec<(usize, DiscoveryError)>,
    /// The failed discovery of a single-target tick.
    pub enumeration_failed: Option<DiscoveryError>,
    /// The processes to reconcile, in order.
    pub work: Vec<WorkItem>,
    /// The index in `work` of the reconciliation in progress.
    pub next: usize,
    pub active: Option<Active>,
    pub outcomes: Vec<PidOutcome>,
}

/// The work items for the processes `pids` that matched target `k`.
pub open spec fn items_for(k: int, pids: Seq<u32>, affinity_mask: u64, priority_class: u32) -> Seq<
    WorkItem,
> {
    pids.map_values(
        |pid: u32| WorkItem { target: k as usize, pid, affinity_mask, priority_class },
    )
}

/// The work of the first `n` targets of a multi-target tick: each matched
/// process of each successfully discovered target, in order.
pub open spec fn work_upto(
    configs: Seq<(String, u64, u32)>,
    found: Seq<Result<Vec<u32>, DiscoveryError>>,
    n: nat,
) -> Seq<WorkItem>
    decreases n,
{
    if n == 0 {
        Seq::empty()
    } else {
        let k = n - 1;
        work_upto(configs, found, (n - 1) as nat) + match found[k] {
            Ok(pids) => items_for(k, pids@, configs[k].1, configs[k].2),
            Err(_) => Seq::empty(),
        }
    }
}

/// The targets among the first `n` whose discovery failed.
pub open spec fn failures_upto(found: Seq<Result<Vec<u32>, DiscoveryError>>, n: nat) -> Seq<
    (usize, DiscoveryError),
>
    decreases n,
{
    if n == 0 {
        Seq::empty()
    } else {
        let k = n - 1;
        match found[k] {
            Ok(_) => failures_upto(found, (n - 1) as nat),
            Err(e) => failures_upto(found, (n - 1) as nat).push((k as usize, e)),
        }
    }
}

/// The process ids of a work list.
pub open spec fn pids_of(work: Seq<WorkItem>) -> Seq<u32> {
    work.map_values(|w: WorkItem| w.pid)
}

/// The reconciliation that starts at work index `i` against registry `m`,
/// and the registry once the process is tracked; nothing starts past the end.
pub open spec fn activation(work: Seq<WorkItem>, i: int, m: Map<u32, ProcessInstance>) -> (
    Option<Active>,
    Map<u32, ProcessInstance>,
) {
    if 0 <= i < work.len() {
        let w = work[i];
        let m2 = with_tracked(m, w.pid);
        (
            Some(
                Active {
                    target: w.target,
                    is_new: !m.contains_key(w.pid),
                    session: session_for(m2, w.pid, w.affinity_mask, w.priority_class),
                },
            ),
            m2,
        )
    } else {
        (None, m)
    }
}

/// How a finished session is recorded.
pub open spec fn outcome_of(a: Active, s: ReconcileSession) -> PidOutcome {
    PidOutcome {
        target: a.target,
        pid: s.pid,
        is_new: a.is_new,
        result: match s.phase {
            Phase::Failed(e) => Err(e),
            _ => Ok(s.changes),
        },
    }
}

impl Tick {
    /// The cursor stays within the work list.
    pub open spec fn wf(&self) -> bool {
        self.next <= self.work@.len()
    }

    /// Whether two ticks share everything but their progress.
    pub open spec fn same_plan(&self, other: &Tick) -> bool {
        &&& self.multi == other.multi
        &&& self.names@ == other.names@
        &&& self.discovery_errors@ == other.discovery_errors@
        &&& self.enumeration_failed == other.enumeration_failed
        &&& self.work@ == other.work@
    }

    /// The call to make next.
    pub fn request(&self) -> (r: OsRequest)
        ensures
            r == match self.active {
                Some(a) => a.session.pending(),
                None => OsRequest::Nothing,
            },
    {
        match &self.active {
            Some(a) => a.session.request(),
            None => OsRequest::Nothing,
        }
    }
}

impl ProcessManager {
    /// Starts the reconciliation at the tick's cursor, if any is left.
    fn activate(&mut self, tick: &mut Tick)
        requires
            old(self).wf(),
        ensures
            final(self).wf(),
            (final(tick).active, final(self)@) == activation(
                old(tick).work@,
                old(tick).next as int,
                old(self)@,
            ),
            final(tick).same_plan(old(tick)),
            final(tick).next == old(tick).next,
            final(tick).outcomes@ == old(tick).outcomes@,
    {
        if tick.next < tick.work.len() {
            let w = tick.work[tick.next];
            let is_new = self.insert_if_absent(w.pid);
            let session = self.begin_reconcile(w.pid, w.affinity_mask, w.priority_class);
            tick.active = Some(Active { target: w.target, is_new, session });
        } else {
            tick.active = None;
        }
    }

    /// Takes the answer to the tick's pending call. When it ends the
    /// reconciliation in progress, the registry records the result and the
    /// next process, if any, starts.
    pub fn advance_tick(&mut self, tick: &mut Tick, reply: &OsReply)
        requires
            old(self).wf(),
            old(tick).wf(),
        ensures
            final(self).wf(),
            final(tick).wf(),
            final(tick).same_plan(old(tick)),
            match old(tick).active {
                None => {
                    &&& final(self)@ == old(self)@
                    &&& final(tick).active == old(tick).active
                    &&& final(tick).next == old(tick).next
                    &&& final(tick).outcomes@ == old(tick).outcomes@
                },
                Some(a) => {
                    let s = a.session.next(*reply);
                    if !s.is_over() {
                        &&& final(self)@ == old(self)@
                        &&& final(tick).active == Some(Active { session: s, ..a })
                        &&& final(tick).next == old(tick).next
                        &&& final(tick).outcomes@ == old(tick).outcomes@
                    } else {
                        &&& final(tick).outcomes@ == old(tick).outcomes@.push(outcome_of(a, s))
                        &&& final(tick).next == if old(tick).next < old(tick).work@.len() {
                            old(tick).next + 1
                        } else {
                            old(tick).next as int
                        }
                        &&& (final(tick).active, final(self)@) == activation(
                            old(tick).work@,
                            final(tick).next as int,
                            after_session(old(self)@, s),
                        )
                    }
                },
            },
    {
        match tick.active {
            None => {},
            Some(a) => {
                let mut s = a.session;
                s.advance(reply);
                if !s.finished() {
                    tick.active = Some(Active { session: s, ..a });
                } else {
                    self.commit_reconcile(&s);
                    let result = match s.phase {
                        Phase::Failed(e) => Err(e),
                        _ => Ok(s.changes),
                    };
                    tick.outcomes.push(
                        PidOutcome { target: a.target, pid: s.pid, is_new: a.is_new, result },
                    );
                    if tick.next < tick.work.len() {
                        tick.next = tick.next + 1;
                    }
                    self.activate(tick);
                }
            },
        }
    }
}

/// The target names of a configuration list.
pub open spec fn names_of(configs: Seq<(String, u64, u32)>) -> Seq<String> {
    configs.map_values(|c: (String, u64, u32)| c.0)
}

/// Appends the work items for the processes `pids` that matched target `k`.
fn push_items(
    work: &mut Vec<WorkItem>,
    k: usize,
    pids: &Vec<u32>,
    affinity_mask: u64,
    priority_class: u32,
)
    ensures
        final(work)@ == old(work)@ + items_for(k as int, pids@, affinity_mask, priority_class),
{
    let ghost start = work@;
    let mut j: usize = 0;
    while j < pids.len()
        invariant
            j <= pids@.len(),
            work@ == start + items_for(
                k as int,
                pids@.take(j as int),
                affinity_mask,
                priority_class,
            ),
        decreases pids@.len() - j,
    {
        proof {
            assert(items_for(k as int, pids@.take(j as int + 1), affinity_mask, priority_class)
                =~= items_for(k as int, pids@.take(j as int), affinity_mask, priority_class).push(
                WorkItem { target: k, pid: pids@[j as int], affinity_mask, priority_class },
            ));
        }
        work.push(WorkItem { target: k, pid: pids[j], affinity_mask, priority_class });
        j = j + 1;
    }
    proof {
        assert(pids@.take(pids@.len() as int) =~= pids@);
    }
}

/// The process ids of a work list.
fn pid_list(work: &Vec<WorkItem>) -> (r: Vec<u32>)
    ensures
        r@ == pids_of(work@),
{
    let mut r: Vec<u32> = Vec::new();
    let mut j: usize = 0;
    while j < work.len()
        invariant
            j <= work@.len(),
            r@ == pids_of(work@.take(j as int)),
        decreases work@.len() - j,
    {
        proof {
            assert(pids_of(work@.take(j as int + 1)) =~= pids_of(work@.take(j as int)).push(
                work@[j as int].pid,
            ));
        }
        r.push(work[j].pid);
        j = j + 1;
    }
    proof {
        assert(work@.take(work@.len() as int) =~= work@);
    }
    r
}

impl ProcessManager {
    /// Starts a tick for one target name, given what its discovery returned.
    /// A failed discovery leaves the registry alone; otherwise the registry
    /// is pruned to the processes found and the first of them starts.
    pub fn check_and_manage_process(
        &mut self,
        discovered: &Result<Vec<u32>, DiscoveryError>,
        affinity_mask: u64,
        priority_class: u32,
    ) -> (t: Tick)
        requires
            old(self).wf(),
        ensures
            final(self).wf(),
            t.wf(),
            !t.multi,
            t.names@.len() == 0,
            t.discovery_errors@.len() == 0,
            t.next == 0,
            t.outcomes@.len() == 0,
            match discovered {
                Err(e) => {
                    &&& t.enumeration_failed == Some(*e)
                    &&& t.work@.len() == 0
                    &&& t.active is None
                    &&& final(self)@ == old(self)@
                },
                Ok(pids) => {
                    &&& t.enumeration_failed is None
                    &&& t.work@ == items_for(0, pids@, affinity_mask, priority_class)
                    &&& (t.active, final(self)@) == activation(
                        t.work@,
                        0,
                        pruned(old(self)@, pids@),
                    )
                },
            },
    {
        let mut t = Tick {
            multi: false,
            names: Vec::new(),
            discovery_errors: Vec::new(),
            enumeration_failed: None,
            work: Vec::new(),
            next: 0,
            active: None,
            outcomes: Vec::new(),
        };
        match discovered {
            Err(e) => {
                t.enumeration_failed = Some(*e);
            },
            Ok(pids) => {
                push_items(&mut t.work, 0, pids, affinity_mask, priority_class);
                self.retain_only(pids.as_slice());
                self.activate(&mut t);
            },
        }
        t
    }

    /// Starts a tick for a list of (name, affinity mask, priority class)
    /// targets, given what each one's discovery returned. The registry is
    /// pruned to the processes found by the discoveries that succeeded, and
    /// the first of them starts; failed discoveries are kept for the report.
    pub fn check_and_manage_multiple_processes(
        &mut self,
        process_configs: &[(String, u64, u32)],
        discovered: &[Result<Vec<u32>, DiscoveryError>],
    ) -> (t: Tick)
        requires
            old(self).wf(),
            discovered@.len() == process_configs@.len(),
        ensures
            final(self).wf(),
            t.wf(),
            t.multi,
            t.names@ == names_of(process_configs@),
            t.enumeration_failed is None,
            t.work@ == work_upto(process_configs@, discovered@, process_configs@.len()),
            t.discovery_errors@ == failures_upto(discovered@, process_configs@.len()),
            t.next == 0,
            t.outcomes@.len() == 0,
            (t.active, final(self)@) == activation(
                t.work@,
                0,
                pruned(old(self)@, pids_of(t.work@)),
            ),
    {
        let mut t = Tick {
            multi: true,
            names: Vec::new(),
            discovery_errors: Vec::new(),
            enumeration_failed: None,
            work: Vec::new(),
            next: 0,
            active: None,
            outcomes: Vec::new(),
        };
        let mut k: usize = 0;
        while k < process_configs.len()
            invariant
                k <= process_configs@.len() == discovered@.len(),
                t.names@ == names_of(process_configs@.take(k as int)),
                t.work@ == work_upto(process_configs@, discovered@, k as nat),
                t.discovery_errors@ == failures_upto(discovered@, k as nat),
                t.multi,
                t.enumeration_failed is None,
                t.next == 0,
                t.active is None,
                t.outcomes@.len() == 0,
            decreases process_configs@.len() - k,
        {
            proof {
                assert(names_of(process_configs@.take(k as int + 1)) =~= names_of(
                    process_configs@.take(k as int),
                ).push(process_configs@[k as int].0));
            }
            let name = process_configs[k].0.clone();
            t.names.push(name);
            match &discovered[k] {
                Ok(pids) => {
                    push_items(
                        &mut t.work,
                        k,
                        pids,
                        process_configs[k].1,
                        process_configs[k].2,
                    );
                },
                Err(e) => {
                    t.discovery_errors.push((k, *e));
                },
            }
            k = k + 1;
        }
        proof {
            assert(process_configs@.take(process_configs@.len() as int) =~= process_configs@);
        }
        let current = pid_list(&t.work);
        self.retain_only(current.as_slice());
        self.activate(&mut t);
        t
    }
}

} // verus!
