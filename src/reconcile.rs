//! Reconciling one process with its desired CPU affinity and priority class.
//!
//! The work alternates operating-system calls with decisions, so it is a
//! step machine: [`ReconcileSession::request`] names the next call to make,
//! and [`ReconcileSession::advance`] takes its answer.
use vstd::prelude::*;
use crate::text::{decimal, hex, push_decimal, push_hex, push_str};

verus! {

/// One of the two settings that are enforced on a process.
#[derive(Clone, Copy, Debug, PartialEq, Eq)]
pub enum Setting {
    Affinity,
    Priority,
}

/// Why a reconciliation failed.
#[derive(Clone, Copy, Debug, PartialEq, Eq)]
pub enum ReconcileError {
    /// Neither modify nor query rights could be had: the process is gone or
    /// protected. `elevated` says whether this process runs elevated, and
    /// `still_visible` whether a last query-only probe could open it.
    Unreachable { pid: u32, elevated: bool, still_visible: bool },
    /// The process can be read but not modified; elevation would help.
    PermissionDenied { pid: u32 },
    /// The current value of a setting could not be read.
    QueryFailed(Setting),
    /// The system rejected the write of a setting.
    ApplyFailed(Setting),
}

/// What a successful reconciliation changed: for each setting that was
/// (re)applied, its value before and the value written.
#[derive(Clone, Copy, Debug, PartialEq, Eq)]
pub struct ChangeSummary {
    pub affinity: Option<(u64, u64)>,
    pub priority: Option<(u32, u32)>,
}

/// Where a reconciliation stands: the call it waits for, or its end.
#[derive(Clone, Copy, Debug, PartialEq, Eq)]
pub enum Phase {
    OpenFull,
    OpenQueryOnly,
    CheckElevation,
    ProbeOwner { elevated: bool },
    ReadAffinity,
    WriteAffinity { observed_affinity: u64 },
    ReadPriority,
    WritePriority { observed_priority: u32 },
    Done,
    Failed(ReconcileError),
}

/// A call that the engine asks the caller to make on its behalf.
#[derive(Clone, Copy, Debug, PartialEq, Eq)]
pub enum OsRequest {
    /// Open the process with query and modify rights, keeping the handle for
    /// the reads and writes that follow.
    OpenFull(u32),
    /// Open the process with limited query rights only, close it again, and
    /// report whether it opened.
    ProbeQueryAccess(u32),
    /// Report whether this process runs elevated.
    CheckElevation,
    ReadAffinity(u32),
    WriteAffinity(u32, u64),
    ReadPriority(u32),
    WritePriority(u32, u32),
    /// Nothing is asked: the work is over.
    Nothing,
}

/// The answer to an [`OsRequest`].
#[derive(Clone, Copy, Debug, PartialEq, Eq)]
pub enum OsReply {
    Opened(bool),
    Elevated(bool),
    /// The current affinity mask, or `None` when it could not be read.
    Affinity(Option<u64>),
    /// The current priority class, or `None` when it could not be read.
    Priority(Option<u32>),
    /// Whether a write was accepted.
    Written(bool),
}

/// Whether a setting must be written: the observed value differs from the
/// desired one, or the last value applied is not known to be the desired
/// one. The observed value wins whenever the two disagree.
pub open spec fn needs_reapply<T>(current: T, desired: T, last_applied: Option<T>) -> bool {
    current != desired || last_applied != Some(desired)
}

/// A reconciliation of one process.
#[derive(Clone, Copy, Debug, PartialEq, Eq)]
pub struct ReconcileSession {
    pub pid: u32,
    pub desired_affinity: u64,
    pub desired_priority: u32,
    pub last_affinity: Option<u64>,
    pub last_priority: Option<u32>,
    pub phase: Phase,
    pub changes: ChangeSummary,
}

/// A summary of no changes.
pub open spec fn no_changes() -> ChangeSummary {
    ChangeSummary { affinity: None, priority: None }
}

/// A session that has not made any call yet.
pub open spec fn fresh_session(
    pid: u32,
    desired_affinity: u64,
    desired_priority: u32,
    last_affinity: Option<u64>,
    last_priority: Option<u32>,
) -> ReconcileSession {
    ReconcileSession {
        pid,
        desired_affinity,
        desired_priority,
        last_affinity,
        last_priority,
        phase: Phase::OpenFull,
        changes: no_changes(),
    }
}

impl ReconcileSession {
    /// Whether the session has ended, in success or failure.
    pub open spec fn is_over(self) -> bool {
        self.phase is Done || self.phase is Failed
    }

    /// The call the session waits for.
    pub open spec fn pending(self) -> OsRequest {
        match self.phase {
            Phase::OpenFull => OsRequest::OpenFull(self.pid),
            Phase::OpenQueryOnly => OsRequest::ProbeQueryAccess(self.pid),
            Phase::CheckElevation => OsRequest::CheckElevation,
            Phase::ProbeOwner { .. } => OsRequest::ProbeQueryAccess(self.pid),
            Phase::ReadAffinity => OsRequest::ReadAffinity(self.pid),
            Phase::WriteAffinity { .. } => OsRequest::WriteAffinity(self.pid, self.desired_affinity),
            Phase::ReadPriority => OsRequest::ReadPriority(self.pid),
            Phase::WritePriority { .. } => OsRequest::WritePriority(self.pid, self.desired_priority),
            Phase::Done => OsRequest::Nothing,
            Phase::Failed(_) => OsRequest::Nothing,
        }
    }

    /// The phase after `reply`; a reply that does not answer the pending call
    /// leaves the phase as it is.
    pub open spec fn next_phase(self, reply: OsReply) -> Phase {
        match self.phase {
            Phase::OpenFull => match reply {
                OsReply::Opened(true) => Phase::ReadAffinity,
                OsReply::Opened(false) => Phase::OpenQueryOnly,
                _ => self.phase,
            },
            Phase::OpenQueryOnly => match reply {
                OsReply::Opened(true) => Phase::Failed(
                    ReconcileError::PermissionDenied { pid: self.pid },
                ),
                OsReply::Opened(false) => Phase::CheckElevation,
                _ => self.phase,
            },
            Phase::CheckElevation => match reply {
                OsReply::Elevated(e) => Phase::ProbeOwner { elevated: e },
                _ => self.phase,
            },
            Phase::ProbeOwner { elevated } => match reply {
                OsReply::Opened(v) => Phase::Failed(
                    ReconcileError::Unreachable { pid: self.pid, elevated, still_visible: v },
                ),
                _ => self.phase,
            },
            Phase::ReadAffinity => match reply {
                OsReply::Affinity(Some(current)) => if needs_reapply(
                    current,
                    self.desired_affinity,
                    self.last_affinity,
                ) {
                    Phase::WriteAffinity { observed_affinity: current }
                } else {
                    Phase::ReadPriority
                },
                OsReply::Affinity(None) => Phase::Failed(
                    ReconcileError::QueryFailed(Setting::Affinity),
                ),
                _ => self.phase,
            },
            Phase::WriteAffinity { .. } => match reply {
                OsReply::Written(true) => Phase::ReadPriority,
                OsReply::Written(false) => Phase::Failed(
                    ReconcileError::ApplyFailed(Setting::Affinity),
                ),
                _ => self.phase,
            },
            Phase::ReadPriority => match reply {
                OsReply::Priority(Some(current)) => if needs_reapply(
                    current,
                    self.desired_priority,
                    self.last_priority,
                ) {
                    Phase::WritePriority { observed_priority: current }
                } else {
                    Phase::Done
                },
                OsReply::Priority(None) => Phase::Failed(
                    ReconcileError::QueryFailed(Setting::Priority),
                ),
                _ => self.phase,
            },
            Phase::WritePriority { .. } => match reply {
                OsReply::Written(true) => Phase::Done,
                OsReply::Written(false) => Phase::Failed(
                    ReconcileError::ApplyFailed(Setting::Priority),
                ),
                _ => self.phase,
            },
            Phase::Done => self.phase,
            Phase::Failed(_) => self.phase,
        }
    }

    /// The changes recorded after `reply`: an accepted write records the
    /// value observed before it and the value written.
    pub open spec fn next_changes(self, reply: OsReply) -> ChangeSummary {
        match (self.phase, reply) {
            (Phase::WriteAffinity { observed_affinity: current }, OsReply::Written(true)) => ChangeSummary {
                affinity: Some((current, self.desired_affinity)),
                ..self.changes
            },
            (Phase::WritePriority { observed_priority: current }, OsReply::Written(true)) => ChangeSummary {
                priority: Some((current, self.desired_priority)),
                ..self.changes
            },
            _ => self.changes,
        }
    }

    /// The session after `reply`.
    pub open spec fn next(self, reply: OsReply) -> ReconcileSession {
        ReconcileSession { phase: self.next_phase(reply), changes: self.next_changes(reply), ..self }
    }

    /// Starts reconciling `pid` towards the desired values, given the values
    /// last applied to it.
    pub fn new(
        pid: u32,
        desired_affinity: u64,
        desired_priority: u32,
        last_affinity: Option<u64>,
        last_priority: Option<u32>,
    ) -> (s: ReconcileSession)
        ensures
            s == fresh_session(pid, desired_affinity, desired_priority, last_affinity, last_priority),
    {
        ReconcileSession {
            pid,
            desired_affinity,
            desired_priority,
            last_affinity,
            last_priority,
            phase: Phase::OpenFull,
            changes: ChangeSummary { affinity: None, priority: None },
        }
    }

    /// The call to make next.
    pub fn request(&self) -> (r: OsRequest)
        ensures
            r == self.pending(),
    {
        match self.phase {
            Phase::OpenFull => OsRequest::OpenFull(self.pid),
            Phase::OpenQueryOnly => OsRequest::ProbeQueryAccess(self.pid),
            Phase::CheckElevation => OsRequest::CheckElevation,
            Phase::ProbeOwner { .. } => OsRequest::ProbeQueryAccess(self.pid),
            Phase::ReadAffinity => OsRequest::ReadAffinity(self.pid),
            Phase::WriteAffinity { .. } => OsRequest::WriteAffinity(self.pid, self.desired_affinity),
            Phase::ReadPriority => OsRequest::ReadPriority(self.pid),
            Phase::WritePriority { .. } => OsRequest::WritePriority(self.pid, self.desired_priority),
            Phase::Done => OsRequest::Nothing,
            Phase::Failed(_) => OsRequest::Nothing,
        }
    }

    /// Whether the session has ended.
    pub fn finished(&self) -> (r: bool)
        ensures
            r == self.is_over(),
    {
        match self.phase {
            Phase::Done => true,
            Phase::Failed(_) => true,
            _ => false,
        }
    }

    /// Takes the answer to the pending call.
    pub fn advance(&mut self, reply: &OsReply)
        ensures
            *final(self) == old(self).next(*reply),
    {
        let desired_affinity = self.desired_affinity;
        let desired_priority = self.desired_priority;
        match self.phase {
            Phase::OpenFull => match reply {
                OsReply::Opened(true) => self.phase = Phase::ReadAffinity,
                OsReply::Opened(false) => self.phase = Phase::OpenQueryOnly,
                _ => {},
            },
            Phase::OpenQueryOnly => match reply {
                OsReply::Opened(true) => self.phase = Phase::Failed(
                    ReconcileError::PermissionDenied { pid: self.pid },
                ),
                OsReply::Opened(false) => self.phase = Phase::CheckElevation,
                _ => {},
            },
            Phase::CheckElevation => match reply {
                OsReply::Elevated(e) => self.phase = Phase::ProbeOwner { elevated: *e },
                _ => {},
            },
            Phase::ProbeOwner { elevated } => match reply {
                OsReply::Opened(v) => self.phase = Phase::Failed(
                    ReconcileError::Unreachable { pid: self.pid, elevated, still_visible: *v },
                ),
                _ => {},
            },
            Phase::ReadAffinity => match reply {
                OsReply::Affinity(Some(current)) => {
                    let current = *current;
                    let last_matches = match self.last_affinity {
                        Some(last) => last == desired_affinity,
                        None => false,
                    };
                    if current != desired_affinity || !last_matches {
                        self.phase = Phase::WriteAffinity { observed_affinity: current };
                    } else {
                        self.phase = Phase::ReadPriority;
                    }
                },
                OsReply::Affinity(None) => self.phase = Phase::Failed(
                    ReconcileError::QueryFailed(Setting::Affinity),
                ),
                _ => {},
            },
            Phase::WriteAffinity { observed_affinity: current } => match reply {
                OsReply::Written(true) => {
                    self.phase = Phase::ReadPriority;
                    self.changes.affinity = Some((current, desired_affinity));
                },
                OsReply::Written(false) => self.phase = Phase::Failed(
                    ReconcileError::ApplyFailed(Setting::Affinity),
                ),
                _ => {},
            },
            Phase::ReadPriority => match reply {
                OsReply::Priority(Some(current)) => {
                    let current = *current;
                    let last_matches = match self.last_priority {
                        Some(last) => last == desired_priority,
                        None => false,
                    };
                    if current != desired_priority || !last_matches {
                        self.phase = Phase::WritePriority { observed_priority: current };
                    } else {
                        self.phase = Phase::Done;
                    }
                },
                OsReply::Priority(None) => self.phase = Phase::Failed(
                    ReconcileError::QueryFailed(Setting::Priority),
                ),
                _ => {},
            },
            Phase::WritePriority { observed_priority: current } => match reply {
                OsReply::Written(true) => {
                    self.phase = Phase::Done;
                    self.changes.priority = Some((current, desired_priority));
                },
                OsReply::Written(false) => self.phase = Phase::Failed(
                    ReconcileError::ApplyFailed(Setting::Priority),
                ),
                _ => {},
            },
            Phase::Done => {},
            Phase::Failed(_) => {},
        }
    }
}

/// The diagnostic for a process that could not be opened, after a last
/// query-only probe.
pub open spec fn owner_info(still_visible: bool) -> Seq<char> {
    if still_visible {
        "Process exists but requires elevated permissions to modify"@
    } else {
        "Process may have exited or is a protected system process"@
    }
}

impl ReconcileError {
    /// The message that reports this error.
    pub open spec fn text(self) -> Seq<char> {
        match self {
            ReconcileError::Unreachable { pid, elevated, still_visible } => if elevated {
                "Failed to open process PID "@ + decimal(pid as nat) + ": "@ + owner_info(
                    still_visible,
                ) + ". Process may be protected or have exited."@
            } else {
                "Access denied to PID "@ + decimal(pid as nat) + ": "@ + owner_info(still_visible)
                    + ". Right-click the application and 'Run as Administrator'."@
            },
            ReconcileError::PermissionDenied { pid } => "Insufficient permissions for PID "@
                + decimal(pid as nat)
                + ". Can read process but cannot modify settings. Run as Administrator."@,
            ReconcileError::QueryFailed(Setting::Affinity) => "Failed to get current process affinity"@,
            ReconcileError::QueryFailed(Setting::Priority) => "Failed to get current process priority"@,
            ReconcileError::ApplyFailed(Setting::Affinity) => "Failed to set process affinity"@,
            ReconcileError::ApplyFailed(Setting::Priority) => "Failed to set process priority"@,
        }
    }

    /// Writes the message that reports this error.
    pub fn message(&self) -> (r: String)
        ensures
            r@ == self.text(),
    {
        let mut r = String::new();
        match *self {
            ReconcileError::Unreachable { pid, elevated, still_visible } => {
                if elevated {
                    push_str(&mut r, "Failed to open process PID ");
                } else {
                    push_str(&mut r, "Access denied to PID ");
                }
                push_decimal(&mut r, pid as u64);
                push_str(&mut r, ": ");
                if still_visible {
                    push_str(&mut r, "Process exists but requires elevated permissions to modify");
                } else {
                    push_str(&mut r, "Process may have exited or is a protected system process");
                }
                if elevated {
                    push_str(&mut r, ". Process may be protected or have exited.");
                } else {
                    push_str(&mut r, ". Right-click the application and 'Run as Administrator'.");
                }
            },
            ReconcileError::PermissionDenied { pid } => {
                push_str(&mut r, "Insufficient permissions for PID ");
                push_decimal(&mut r, pid as u64);
                push_str(
                    &mut r,
                    ". Can read process but cannot modify settings. Run as Administrator.",
                );
            },
            ReconcileError::QueryFailed(Setting::Affinity) => {
                push_str(&mut r, "Failed to get current process affinity");
            },
            ReconcileError::QueryFailed(Setting::Priority) => {
                push_str(&mut r, "Failed to get current process priority");
            },
            ReconcileError::ApplyFailed(Setting::Affinity) => {
                push_str(&mut r, "Failed to set process affinity");
            },
            ReconcileError::ApplyFailed(Setting::Priority) => {
                push_str(&mut r, "Failed to set process priority");
            },
        }
        r
    }
}

/// How an affinity change is described.
pub open spec fn affinity_change_text(before: u64, after: u64) -> Seq<char> {
    "CPU affinity: 0x"@ + hex(before as nat) + " \u{2192} 0x"@ + hex(after as nat)
}

/// How a priority change is described.
pub open spec fn priority_change_text(before: u32, after: u32) -> Seq<char> {
    "Priority: 0x"@ + hex(before as nat) + " \u{2192} 0x"@ + hex(after as nat)
}

impl ChangeSummary {
    /// Whether nothing was changed.
    pub open spec fn is_none(self) -> bool {
        self.affinity is None && self.priority is None
    }

    /// The changes described one after the other, affinity first, separated
    /// by ", "; empty when nothing was changed.
    pub open spec fn text(self) -> Seq<char> {
        match (self.affinity, self.priority) {
            (Some((a, b)), Some((c, d))) => affinity_change_text(a, b) + ", "@
                + priority_change_text(c, d),
            (Some((a, b)), None) => affinity_change_text(a, b),
            (None, Some((c, d))) => priority_change_text(c, d),
            (None, None) => Seq::empty(),
        }
    }

    /// Whether nothing was changed.
    pub fn is_empty(&self) -> (r: bool)
        ensures
            r == self.is_none(),
    {
        self.affinity.is_none() && self.priority.is_none()
    }

    /// Describes the changes.
    pub fn describe(&self) -> (r: String)
        ensures
            r@ == self.text(),
    {
        let mut r = String::new();
        if let Some((a, b)) = self.affinity {
            push_str(&mut r, "CPU affinity: 0x");
            push_hex(&mut r, a);
            push_str(&mut r, " \u{2192} 0x");
            push_hex(&mut r, b);
        }
        if let Some((c, d)) = self.priority {
            if self.affinity.is_some() {
                push_str(&mut r, ", ");
            }
            push_str(&mut r, "Priority: 0x");
            push_hex(&mut r, c as u64);
            push_str(&mut r, " \u{2192} 0x");
            push_hex(&mut r, d as u64);
        }
        r
    }
}

} // verus!
