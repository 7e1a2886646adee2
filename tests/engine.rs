use std::collections::HashMap;

use process_affinity::discovery::{find_all_processes_by_name, DiscoveryError, SnapshotEntry};
use process_affinity::reconcile::{OsReply, OsRequest, ReconcileError, ReconcileSession, Setting};
use process_affinity::registry::ProcessManager;
use process_affinity::state::ProcessState;
use process_affinity::tick::Tick;

const ABOVE_NORMAL: u32 = 0x8000;
const NORMAL: u32 = 0x20;

struct FakeProcess {
    name: String,
    affinity: u64,
    priority: u32,
    full_access: bool,
    query_access: bool,
    accepts_writes: bool,
}

struct FakeSystem {
    processes: HashMap<u32, FakeProcess>,
    elevated: bool,
    calls: Vec<OsRequest>,
}

impl FakeSystem {
    fn new() -> Self {
        FakeSystem { processes: HashMap::new(), elevated: false, calls: Vec::new() }
    }

    fn spawn(&mut self, pid: u32, name: &str, affinity: u64, priority: u32) {
        self.processes.insert(
            pid,
            FakeProcess {
                name: name.to_string(),
                affinity,
                priority,
                full_access: true,
                query_access: true,
                accepts_writes: true,
            },
        );
    }

    fn snapshot(&self) -> Vec<SnapshotEntry> {
        let mut pids: Vec<u32> = self.processes.keys().cloned().collect();
        pids.sort();
        pids.iter()
            .map(|pid| SnapshotEntry { pid: *pid, exe_name: self.processes[pid].name.clone() })
            .collect()
    }

    fn discover(&self, name: &str) -> Result<Vec<u32>, DiscoveryError> {
        Ok(find_all_processes_by_name(&self.snapshot(), name))
    }

    fn answer(&mut self, req: OsRequest) -> OsReply {
        self.calls.push(req);
        match req {
            OsRequest::OpenFull(pid) => {
                OsReply::Opened(self.processes.get(&pid).map_or(false, |p| p.full_access))
            }
            OsRequest::ProbeQueryAccess(pid) => {
                OsReply::Opened(self.processes.get(&pid).map_or(false, |p| p.query_access))
            }
            OsRequest::CheckElevation => OsReply::Elevated(self.elevated),
            OsRequest::ReadAffinity(pid) => OsReply::Affinity(self.processes.get(&pid).map(|p| p.affinity)),
            OsRequest::ReadPriority(pid) => OsReply::Priority(self.processes.get(&pid).map(|p| p.priority)),
            OsRequest::WriteAffinity(pid, mask) => match self.processes.get_mut(&pid) {
                Some(p) if p.accepts_writes => {
                    p.affinity = mask;
                    OsReply::Written(true)
                }
                _ => OsReply::Written(false),
            },
            OsRequest::WritePriority(pid, class) => match self.processes.get_mut(&pid) {
                Some(p) if p.accepts_writes => {
                    p.priority = class;
                    OsReply::Written(true)
                }
                _ => OsReply::Written(false),
            },
            OsRequest::Nothing => panic!("no call is pending"),
        }
    }
}

fn drive(pm: &mut ProcessManager, tick: &mut Tick, sys: &mut FakeSystem) -> ProcessState {
    loop {
        match tick.request() {
            OsRequest::Nothing => break,
            req => {
                let reply = sys.answer(req);
                pm.advance_tick(tick, &reply);
            }
        }
    }
    tick.state()
}

fn single_tick(pm: &mut ProcessManager, sys: &mut FakeSystem, name: &str, mask: u64, class: u32) -> ProcessState {
    let found = sys.discover(name);
    let mut tick = pm.check_and_manage_process(&found, mask, class);
    drive(pm, &mut tick, sys)
}

fn multi_tick(pm: &mut ProcessManager, sys: &mut FakeSystem, configs: &[(String, u64, u32)]) -> ProcessState {
    let found: Vec<Result<Vec<u32>, DiscoveryError>> = configs.iter().map(|c| sys.discover(&c.0)).collect();
    let mut tick = pm.check_and_manage_multiple_processes(configs, &found);
    drive(pm, &mut tick, sys)
}

#[test]
fn nothing_running_is_not_found() {
    let mut pm = ProcessManager::new();
    let mut sys = FakeSystem::new();
    sys.spawn(10, "explorer.exe", 0xFF, NORMAL);
    assert_eq!(sys.discover("icad.exe"), Ok(vec![]));
    assert_eq!(single_tick(&mut pm, &mut sys, "icad.exe", 0x30, ABOVE_NORMAL), ProcessState::NotFound);
    assert!(pm.get_tracked_processes().is_empty());
}

#[test]
fn new_process_is_found_and_configured() {
    let mut pm = ProcessManager::new();
    let mut sys = FakeSystem::new();
    sys.spawn(1234, "icad.exe", 0xFF, NORMAL);
    let state = single_tick(&mut pm, &mut sys, "icad.exe", 0x30, ABOVE_NORMAL);
    assert_eq!(state, ProcessState::Found(1234));
    assert_eq!(sys.processes[&1234].affinity, 0x30);
    assert_eq!(sys.processes[&1234].priority, ABOVE_NORMAL);
    let inst = pm.get(1234).unwrap();
    assert_eq!(inst.last_applied_affinity, Some(0x30));
    assert_eq!(inst.last_applied_priority, Some(ABOVE_NORMAL));
}

#[test]
fn settled_process_is_monitored() {
    let mut pm = ProcessManager::new();
    let mut sys = FakeSystem::new();
    sys.spawn(1234, "icad.exe", 0xFF, NORMAL);
    single_tick(&mut pm, &mut sys, "icad.exe", 0x30, ABOVE_NORMAL);
    sys.calls.clear();
    let state = single_tick(&mut pm, &mut sys, "icad.exe", 0x30, ABOVE_NORMAL);
    assert_eq!(state, ProcessState::FoundAndMonitoring(1234));
    assert!(sys.calls.iter().all(|c| !matches!(c, OsRequest::WriteAffinity(..) | OsRequest::WritePriority(..))));
}

#[test]
fn external_reset_is_reapplied() {
    let mut pm = ProcessManager::new();
    let mut sys = FakeSystem::new();
    sys.spawn(1234, "icad.exe", 0xFF, NORMAL);
    single_tick(&mut pm, &mut sys, "icad.exe", 0x30, ABOVE_NORMAL);
    single_tick(&mut pm, &mut sys, "icad.exe", 0x30, ABOVE_NORMAL);
    sys.processes.get_mut(&1234).unwrap().affinity = 0xFF;
    let state = single_tick(&mut pm, &mut sys, "icad.exe", 0x30, ABOVE_NORMAL);
    assert_eq!(state, ProcessState::SettingsApplied(1234, "CPU affinity: 0xFF \u{2192} 0x30".to_string()));
    assert_eq!(sys.processes[&1234].affinity, 0x30);
}

#[test]
fn exited_process_is_pruned() {
    let mut pm = ProcessManager::new();
    let mut sys = FakeSystem::new();
    sys.spawn(1234, "icad.exe", 0xFF, NORMAL);
    single_tick(&mut pm, &mut sys, "icad.exe", 0x30, ABOVE_NORMAL);
    sys.processes.remove(&1234);
    let state = single_tick(&mut pm, &mut sys, "icad.exe", 0x30, ABOVE_NORMAL);
    assert_eq!(state, ProcessState::NotFound);
    assert_eq!(pm.get(1234), None);
}

#[test]
fn reconcile_twice_changes_nothing_the_second_time() {
    let mut pm = ProcessManager::new();
    let mut sys = FakeSystem::new();
    sys.spawn(77, "tool.exe", 0x0F, NORMAL);
    for round in 0..2 {
        pm.insert_if_absent(77);
        let mut s = pm.begin_reconcile(77, 0x3, ABOVE_NORMAL);
        while !s.finished() {
            let reply = sys.answer(s.request());
            s.advance(&reply);
        }
        pm.commit_reconcile(&s);
        if round == 0 {
            assert_eq!(s.changes.affinity, Some((0x0F, 0x3)));
            assert_eq!(s.changes.priority, Some((NORMAL, ABOVE_NORMAL)));
        } else {
            assert!(s.changes.is_empty());
            assert_eq!(s.changes.describe(), "");
        }
    }
}

#[test]
fn reapplies_when_registry_does_not_know_the_value() {
    // the observed value already matches, but nothing was recorded as applied
    let mut sys = FakeSystem::new();
    sys.spawn(5, "a.exe", 0x3, ABOVE_NORMAL);
    let mut s = ReconcileSession::new(5, 0x3, ABOVE_NORMAL, None, Some(ABOVE_NORMAL));
    while !s.finished() {
        let reply = sys.answer(s.request());
        s.advance(&reply);
    }
    assert_eq!(s.changes.affinity, Some((0x3, 0x3)));
    assert_eq!(s.changes.priority, None);
    assert_eq!(s.changes.describe(), "CPU affinity: 0x3 \u{2192} 0x3");
}

#[test]
fn pruned_pid_starts_over() {
    let mut pm = ProcessManager::new();
    let mut sys = FakeSystem::new();
    sys.spawn(1, "a.exe", 0xFF, NORMAL);
    sys.spawn(2, "a.exe", 0xFF, NORMAL);
    multi_tick(&mut pm, &mut sys, &[("a.exe".to_string(), 0x1, NORMAL)]);
    assert_eq!(pm.get(2).unwrap().last_applied_affinity, Some(0x1));
    pm.retain_only(&[1]);
    assert_eq!(pm.get(2), None);
    assert!(pm.get(1).is_some());
    assert!(pm.insert_if_absent(2));
    let inst = pm.get(2).unwrap();
    assert_eq!(inst.pid, 2);
    assert_eq!(inst.last_applied_affinity, None);
    assert_eq!(inst.last_applied_priority, None);
    assert!(!pm.insert_if_absent(2));
}

#[test]
fn error_outranks_new_process() {
    let mut pm = ProcessManager::new();
    let mut sys = FakeSystem::new();
    sys.spawn(1, "a.exe", 0xFF, NORMAL);
    sys.spawn(2, "a.exe", 0xFF, NORMAL);
    sys.processes.get_mut(&2).unwrap().accepts_writes = false;
    let state = single_tick(&mut pm, &mut sys, "a.exe", 0x1, NORMAL);
    assert_eq!(state, ProcessState::Error("Errors: PID 2: Failed to set process affinity".to_string()));
    // the failed process is forgotten, the healthy one stays tracked
    assert!(pm.get(1).is_some());
    assert_eq!(pm.get(2), None);
}

#[test]
fn several_new_processes_are_reported_together() {
    let mut pm = ProcessManager::new();
    let mut sys = FakeSystem::new();
    sys.spawn(1, "a.exe", 0xFF, NORMAL);
    sys.spawn(2, "A.EXE", 0xFF, NORMAL);
    let state = single_tick(&mut pm, &mut sys, "a.exe", 0x1, NORMAL);
    assert_eq!(state, ProcessState::MultipleFound(vec![1, 2]));
    let state = single_tick(&mut pm, &mut sys, "a.exe", 0x1, NORMAL);
    assert_eq!(state, ProcessState::MultipleMonitoring(vec![1, 2]));
    sys.processes.get_mut(&2).unwrap().affinity = 0x2;
    let state = single_tick(&mut pm, &mut sys, "a.exe", 0x1, NORMAL);
    assert_eq!(
        state,
        ProcessState::MultipleSettingsApplied(vec![(2, "CPU affinity: 0x2 \u{2192} 0x1".to_string())])
    );
}

#[test]
fn single_process_failure_is_reported_and_forgotten() {
    let mut pm = ProcessManager::new();
    let mut sys = FakeSystem::new();
    sys.spawn(9, "a.exe", 0xFF, NORMAL);
    sys.processes.get_mut(&9).unwrap().full_access = false;
    let state = single_tick(&mut pm, &mut sys, "a.exe", 0x1, NORMAL);
    assert_eq!(
        state,
        ProcessState::Error(
            "Failed to monitor PID 9: Insufficient permissions for PID 9. Can read process but cannot modify settings. Run as Administrator."
                .to_string()
        )
    );
    assert_eq!(pm.get(9), None);
}

#[test]
fn discovery_failure_leaves_registry_alone() {
    let mut pm = ProcessManager::new();
    let mut sys = FakeSystem::new();
    sys.spawn(3, "a.exe", 0xFF, NORMAL);
    single_tick(&mut pm, &mut sys, "a.exe", 0x1, NORMAL);
    let mut tick = pm.check_and_manage_process(&Err(DiscoveryError::SnapshotFailed), 0x1, NORMAL);
    assert_eq!(tick.request(), OsRequest::Nothing);
    let state = drive(&mut pm, &mut tick, &mut sys);
    assert_eq!(state, ProcessState::Error("Process enumeration failed: Failed to create process snapshot".to_string()));
    assert!(pm.get(3).is_some());
}

#[test]
fn unreachable_process_messages() {
    let mut sys = FakeSystem::new();
    sys.spawn(4, "a.exe", 0xFF, NORMAL);
    {
        let p = sys.processes.get_mut(&4).unwrap();
        p.full_access = false;
        p.query_access = false;
    }
    let mut s = ReconcileSession::new(4, 0x1, NORMAL, None, None);
    while !s.finished() {
        let reply = sys.answer(s.request());
        s.advance(&reply);
    }
    let err = ReconcileError::Unreachable { pid: 4, elevated: false, still_visible: false };
    assert_eq!(s.phase, process_affinity::reconcile::Phase::Failed(err));
    assert_eq!(
        err.message(),
        "Access denied to PID 4: Process may have exited or is a protected system process. Right-click the application and 'Run as Administrator'."
    );
    let err = ReconcileError::Unreachable { pid: 4, elevated: true, still_visible: true };
    assert_eq!(
        err.message(),
        "Failed to open process PID 4: Process exists but requires elevated permissions to modify. Process may be protected or have exited."
    );
    assert_eq!(ReconcileError::QueryFailed(Setting::Priority).message(), "Failed to get current process priority");
    assert_eq!(ReconcileError::QueryFailed(Setting::Affinity).message(), "Failed to get current process affinity");
    assert_eq!(ReconcileError::ApplyFailed(Setting::Priority).message(), "Failed to set process priority");
}

#[test]
fn unanswered_reply_leaves_session_unchanged() {
    let mut s = ReconcileSession::new(4, 0x1, NORMAL, None, None);
    let before = s;
    s.advance(&OsReply::Written(true));
    assert_eq!(s, before);
    assert_eq!(s.request(), OsRequest::OpenFull(4));
}

#[test]
fn priority_write_is_described_after_affinity() {
    let mut sys = FakeSystem::new();
    sys.spawn(8, "a.exe", 0xF0, NORMAL);
    let mut s = ReconcileSession::new(8, 0x30, ABOVE_NORMAL, None, None);
    while !s.finished() {
        let reply = sys.answer(s.request());
        s.advance(&reply);
    }
    assert_eq!(s.changes.describe(), "CPU affinity: 0xF0 \u{2192} 0x30, Priority: 0x20 \u{2192} 0x8000");
}

#[test]
fn multi_target_tick_groups_by_name() {
    let mut pm = ProcessManager::new();
    let mut sys = FakeSystem::new();
    sys.spawn(1, "a.exe", 0xFF, NORMAL);
    sys.spawn(2, "b.exe", 0xFF, NORMAL);
    let configs = vec![
        ("a.exe".to_string(), 0x1, NORMAL),
        ("b.exe".to_string(), 0x2, NORMAL),
        ("c.exe".to_string(), 0x4, NORMAL),
    ];
    let state = multi_tick(&mut pm, &mut sys, &configs);
    assert_eq!(
        state,
        ProcessState::MultiProcessFound(vec![("a.exe".to_string(), vec![1]), ("b.exe".to_string(), vec![2])])
    );
    let state = multi_tick(&mut pm, &mut sys, &configs);
    assert_eq!(
        state,
        ProcessState::MultiProcessMonitoring(vec![("a.exe".to_string(), vec![1]), ("b.exe".to_string(), vec![2])])
    );
    sys.processes.get_mut(&2).unwrap().priority = 0x40;
    let state = multi_tick(&mut pm, &mut sys, &configs);
    assert_eq!(
        state,
        ProcessState::MultiProcessSettingsApplied(vec![(
            "b.exe".to_string(),
            vec![(2, "Priority: 0x40 \u{2192} 0x20".to_string())]
        )])
    );
    sys.processes.clear();
    assert_eq!(multi_tick(&mut pm, &mut sys, &configs), ProcessState::NotFound);
    assert!(pm.get_tracked_processes().is_empty());
}

#[test]
fn multi_target_collects_discovery_and_reconcile_errors() {
    let mut pm = ProcessManager::new();
    let mut sys = FakeSystem::new();
    sys.spawn(2, "b.exe", 0xFF, NORMAL);
    sys.processes.get_mut(&2).unwrap().accepts_writes = false;
    let configs = vec![("a.exe".to_string(), 0x1, NORMAL), ("b.exe".to_string(), 0x2, NORMAL)];
    let found = vec![Err(DiscoveryError::FirstEntryFailed), sys.discover("b.exe")];
    let mut tick = pm.check_and_manage_multiple_processes(&configs, &found);
    let state = drive(&mut pm, &mut tick, &mut sys);
    assert_eq!(
        state,
        ProcessState::Error(
            "Errors: a.exe: Failed to get first process; b.exe PID 2: Failed to set process affinity".to_string()
        )
    );
}

#[test]
fn empty_target_list_clears_registry() {
    let mut pm = ProcessManager::new();
    let mut sys = FakeSystem::new();
    sys.spawn(1, "a.exe", 0xFF, NORMAL);
    single_tick(&mut pm, &mut sys, "a.exe", 0x1, NORMAL);
    assert_eq!(multi_tick(&mut pm, &mut sys, &[]), ProcessState::NotFound);
    assert!(pm.get_tracked_processes().is_empty());
}

#[test]
fn default_manager_tracks_nothing() {
    let pm = ProcessManager::default();
    assert!(pm.get_tracked_processes().is_empty());
    assert_eq!(pm.get(1), None);
}
