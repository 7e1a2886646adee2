//! Properties that relate several operations of the engine.
use vstd::prelude::*;
use crate::reconcile::{no_changes, OsReply, OsRequest, ReconcileSession};
use crate::registry::{after_session, fresh_instance, pruned, session_for, with_tracked, ProcessInstance};
use crate::report::failure_lines;
use crate::tick::{activation, pids_of, PidOutcome, Tick, WorkItem};

verus! {

/// A model of the system a reconciliation talks to: which rights can be had,
/// the current settings of the process, and whether writes are accepted.
pub struct SystemModel {
    pub full_access: bool,
    pub query_access: bool,
    pub elevated: bool,
    pub affinity: Option<u64>,
    pub priority: Option<u32>,
    pub accepts_writes: bool,
}

/// How the modelled system answers a request, and what it becomes: an
/// accepted write changes the setting to the value written.
pub open spec fn answer(w: SystemModel, r: OsRequest) -> (OsReply, SystemModel) {
    match r {
        OsRequest::OpenFull(_) => (OsReply::Opened(w.full_access), w),
        OsRequest::ProbeQueryAccess(_) => (OsReply::Opened(w.query_access), w),
        OsRequest::CheckElevation => (OsReply::Elevated(w.elevated), w),
        OsRequest::ReadAffinity(_) => (OsReply::Affinity(w.affinity), w),
        OsRequest::WriteAffinity(_, mask) => if w.accepts_writes {
            (OsReply::Written(true), SystemModel { affinity: Some(mask), ..w })
        } else {
            (OsReply::Written(false), w)
        },
        OsRequest::ReadPriority(_) => (OsReply::Priority(w.priority), w),
        OsRequest::WritePriority(_, class) => if w.accepts_writes {
            (OsReply::Written(true), SystemModel { priority: Some(class), ..w })
        } else {
            (OsReply::Written(false), w)
        },
        OsRequest::Nothing => (OsReply::Written(false), w),
    }
}

/// Runs session `s` against the modelled system for at most `steps` calls.
pub open spec fn run(s: ReconcileSession, w: SystemModel, steps: nat) -> (
    ReconcileSession,
    SystemModel,
)
    decreases steps,
{
    if steps == 0 || s.is_over() {
        (s, w)
    } else {
        let (reply, w2) = answer(w, s.pending());
        run(s.next(reply), w2, (steps - 1) as nat)
    }
}

/// Reconciling a tracked process twice with the same desired values, with
/// the registry recording the first run and nothing else touching the
/// process in between, changes nothing the second time.
pub proof fn lemma_reconcile_idempotent(
    m: Map<u32, ProcessInstance>,
    pid: u32,
    desired_affinity: u64,
    desired_priority: u32,
    w: SystemModel,
)
    requires
        m.contains_key(pid),
    ensures
        ({
            let (first, w1) = run(session_for(m, pid, desired_affinity, desired_priority), w, 8);
            let m1 = after_session(m, first);
            let (second, _) = run(session_for(m1, pid, desired_affinity, desired_priority), w1, 8);
            first.phase is Done ==> (second.phase is Done && second.changes == no_changes())
        }),
{
    reveal_with_fuel(run, 9);
}

/// After pruning to `current`, a process id outside it is no longer tracked,
/// and tracking it again starts with nothing applied.
pub proof fn lemma_pruned_pid_forgotten(m: Map<u32, ProcessInstance>, current: Seq<u32>, pid: u32)
    requires
        !current.contains(pid),
    ensures
        !pruned(m, current).contains_key(pid),
        with_tracked(pruned(m, current), pid)[pid] == fresh_instance(pid),
{
}

proof fn lemma_failure_has_line(outs: Seq<PidOutcome>, names: Seq<String>, multi: bool, i: int)
    requires
        0 <= i < outs.len(),
        outs[i].result is Err,
    ensures
        failure_lines(outs, names, multi).len() > 0,
    decreases outs.len(),
{
    if i < outs.len() - 1 {
        lemma_failure_has_line(outs.drop_last(), names, multi, i);
    }
}

/// A tick in which any reconciliation failed reports an error, whatever the
/// other processes did: errors take precedence over new processes, applied
/// changes and monitoring.
pub proof fn lemma_errors_take_precedence(t: Tick, i: int)
    requires
        0 <= i < t.outcomes@.len() <= t.work@.len(),
        t.outcomes@[i].result is Err,
    ensures
        t.reported() is Error,
{
    if t.multi {
        lemma_failure_has_line(t.outcomes@, t.names@, true, i);
    } else {
        lemma_failure_has_line(t.outcomes@, t.names@, false, i);
    }
}

/// Every process the registry tracks is among `pids`.
pub open spec fn tracked_within(m: Map<u32, ProcessInstance>, pids: Seq<u32>) -> bool {
    forall|pid: u32| #[trigger] m.contains_key(pid) ==> pids.contains(pid)
}

/// The registry only ever tracks processes of the latest discovery: pruning
/// to a tick's work list establishes it, and starting or concluding a
/// reconciliation of that work keeps it.
pub proof fn lemma_tracked_within_discovery(
    m: Map<u32, ProcessInstance>,
    work: Seq<WorkItem>,
    i: int,
    s: ReconcileSession,
)
    ensures
        tracked_within(pruned(m, pids_of(work)), pids_of(work)),
        tracked_within(m, pids_of(work)) ==> tracked_within(
            activation(work, i, m).1,
            pids_of(work),
        ),
        tracked_within(m, pids_of(work)) ==> tracked_within(after_session(m, s), pids_of(work)),
{
    if 0 <= i < work.len() {
        assert(pids_of(work)[i] == work[i].pid);
    }
}

} // verus!
