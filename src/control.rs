//! Single-process operations: terminating a process and inspecting it.
use vstd::prelude::*;
use crate::codec::bit_set;
use crate::registry::{ProcessInstance, ProcessManager};
use crate::text::{decimal, push_decimal, push_str};

verus! {

/// What happened when terminating a process was attempted.
#[derive(Clone, Copy, Debug, PartialEq, Eq)]
pub enum TerminateOutcome {
    /// The process could not be opened with terminate rights; `elevated`
    /// says whether this process runs elevated.
    OpenFailed { elevated: bool },
    /// The process was opened but the system refused to terminate it.
    TerminateFailed,
    Terminated,
}

/// The message for a failed termination.
pub open spec fn terminate_error_text(pid: u32, outcome: TerminateOutcome) -> Seq<char> {
    match outcome {
        TerminateOutcome::OpenFailed { elevated: true } => "Failed to open process PID "@ + decimal(
            pid as nat,
        ) + " for termination. Process may have already exited or is protected."@,
        TerminateOutcome::OpenFailed { elevated: false } => "Access denied to terminate PID "@
            + decimal(pid as nat) + ". Run as Administrator to terminate processes."@,
        _ => "Failed to terminate process PID "@ + decimal(pid as nat),
    }
}

/// What was read of a process that could be opened for inspection.
#[derive(Clone, Debug, PartialEq, Eq)]
pub struct ProcessObservation {
    /// The executable name found in a fresh snapshot, if any.
    pub name: Option<String>,
    /// The priority class as read; zero when it could not be read.
    pub priority: u32,
    /// The affinity mask, when it could be read.
    pub affinity: Option<u64>,
}

/// Everything known of one process.
#[derive(Clone, Debug, PartialEq, Eq)]
pub struct ProcessDetails {
    pub pid: u32,
    pub name: String,
    pub current_priority: Option<u32>,
    pub current_affinity: Option<u64>,
    pub last_applied_priority: Option<u32>,
    pub last_applied_affinity: Option<u64>,
    pub is_tracked: bool,
}

impl ProcessManager {
    /// Concludes the termination of `pid`: on success the process is no
    /// longer tracked; otherwise the registry is unchanged and the error
    /// says why.
    pub fn kill_process(&mut self, pid: u32, outcome: TerminateOutcome) -> (r: Result<(), String>)
        requires
            old(self).wf(),
        ensures
            final(self).wf(),
            outcome is Terminated ==> r is Ok && final(self)@ == old(self)@.remove(pid),
            !(outcome is Terminated) ==> r is Err && r->Err_0@ == terminate_error_text(pid, outcome)
                && final(self)@ == old(self)@,
    {
        match outcome {
            TerminateOutcome::Terminated => {
                self.remove(pid);
                Ok(())
            },
            TerminateOutcome::OpenFailed { elevated } => {
                let mut m = String::new();
                if elevated {
                    push_str(&mut m, "Failed to open process PID ");
                    push_decimal(&mut m, pid as u64);
                    push_str(
                        &mut m,
                        " for termination. Process may have already exited or is protected.",
                    );
                } else {
                    push_str(&mut m, "Access denied to terminate PID ");
                    push_decimal(&mut m, pid as u64);
                    push_str(&mut m, ". Run as Administrator to terminate processes.");
                }
                Err(m)
            },
            TerminateOutcome::TerminateFailed => {
                let mut m = String::new();
                push_str(&mut m, "Failed to terminate process PID ");
                push_decimal(&mut m, pid as u64);
                Err(m)
            },
        }
    }

    /// The details of `pid`, from what could be read of it (`None` when no
    /// handle at any rights tier could be opened) and from the registry.
    pub fn get_process_details(&self, pid: u32, observed: &Option<ProcessObservation>) -> (r:
        Result<ProcessDetails, String>)
        ensures
            match observed {
                None => r is Err && r->Err_0@ == "Failed to open process PID "@ + decimal(
                    pid as nat,
                ) + " for information"@,
                Some(o) => r is Ok && {
                    let d = r->Ok_0;
                    &&& d.pid == pid
                    &&& d.name@ == match o.name {
                        Some(n) => n@,
                        None => "Unknown"@,
                    }
                    &&& d.current_priority == if o.priority != 0 {
                        Some(o.priority)
                    } else {
                        None
                    }
                    &&& d.current_affinity == o.affinity
                    &&& d.is_tracked == self@.contains_key(pid)
                    &&& d.last_applied_priority == if self@.contains_key(pid) {
                        self@[pid].last_applied_priority
                    } else {
                        None
                    }
                    &&& d.last_applied_affinity == if self@.contains_key(pid) {
                        self@[pid].last_applied_affinity
                    } else {
                        None
                    }
                },
            },
    {
        match observed {
            None => {
                let mut m = String::new();
                push_str(&mut m, "Failed to open process PID ");
                push_decimal(&mut m, pid as u64);
                push_str(&mut m, " for information");
                Err(m)
            },
            Some(o) => {
                let name = match &o.name {
                    Some(n) => n.clone(),
                    None => String::from_str("Unknown"),
                };
                let record: Option<ProcessInstance> = self.get(pid);
                let (last_priority, last_affinity) = match record {
                    Some(t) => (t.last_applied_priority, t.last_applied_affinity),
                    None => (None, None),
                };
                Ok(
                    ProcessDetails {
                        pid,
                        name,
                        current_priority: if o.priority != 0 {
                            Some(o.priority)
                        } else {
                            None
                        },
                        current_affinity: o.affinity,
                        last_applied_priority: last_priority,
                        last_applied_affinity: last_affinity,
                        is_tracked: record.is_some(),
                    },
                )
            },
        }
    }
}

/// The affinity mask to assume when the system's own cannot be read: every
/// core below `cpu_count`, all 64 when there are at least as many.
pub fn system_affinity_fallback(cpu_count: u32) -> (mask: u64)
    ensures
        forall|i: u64| i < 64 ==> (#[trigger] bit_set(mask, i) <==> i < cpu_count),
{
    if cpu_count >= 64 {
        assert forall|i: u64| i < 64 implies #[trigger] bit_set(u64::MAX, i) by {
            assert((0xFFFF_FFFF_FFFF_FFFFu64 >> i) & 1u64 == 1u64) by (bit_vector)
                requires
                    i < 64,
            ;
        }
        u64::MAX
    } else {
        let n = cpu_count as u64;
        assert(1u64 << n >= 1) by (bit_vector)
            requires
                n < 64,
        ;
        let mask = (1u64 << n) - 1;
        assert forall|i: u64| i < 64 implies (#[trigger] bit_set(mask, i) <==> i < n) by {
            assert((mask >> i) & 1u64 == 1u64 <==> i < n) by (bit_vector)
                requires
                    n < 64,
                    i < 64,
                    mask == ((1u64 << n) - 1u64) as u64,
            ;
        }
        mask
    }
}

} // verus!
