use process_affinity::codec::calculate_affinity_mask;
use process_affinity::config::{default_core_selections, Config, ProcessConfig};
use process_affinity::control::{system_affinity_fallback, ProcessObservation, TerminateOutcome};
use process_affinity::discovery::{
    exe_name_from_raw, find_all_processes_by_name, find_process_by_name, get_process_name_by_pid, name_bytes,
    select_pids_named, DiscoveryError, SnapshotEntry,
};
use process_affinity::log::{format_pids, should_log};
use process_affinity::registry::ProcessManager;
use process_affinity::state::ProcessState;
use process_affinity::text::{decimal_string, hex_string, join};

#[test]
fn mask_has_exactly_the_selected_bits() {
    assert_eq!(calculate_affinity_mask(&[]), 0);
    assert_eq!(calculate_affinity_mask(&[false, false, false, false, true, true, false, false]), 0x30);
    assert_eq!(calculate_affinity_mask(&[true, false, true]), 0b101);
    let all = vec![true; 64];
    assert_eq!(calculate_affinity_mask(&all), u64::MAX);
    let mut top = vec![false; 64];
    top[63] = true;
    assert_eq!(calculate_affinity_mask(&top), 1u64 << 63);
}

#[test]
fn mask_bits_match_selection_positions() {
    let sel = vec![true, false, false, true, true, false, true];
    let mask = calculate_affinity_mask(&sel);
    for i in 0..64 {
        let expected = i < sel.len() && sel[i];
        assert_eq!((mask >> i) & 1 == 1, expected);
    }
}

#[test]
fn numbers_are_written_like_the_formatter() {
    assert_eq!(decimal_string(0), "0");
    assert_eq!(decimal_string(1234), "1234");
    assert_eq!(decimal_string(u64::MAX), u64::MAX.to_string());
    assert_eq!(hex_string(0), "0x0");
    assert_eq!(hex_string(0xFF), "0xFF");
    assert_eq!(hex_string(0x8000), "0x8000");
    assert_eq!(hex_string(u64::MAX), format!("0x{:X}", u64::MAX));
}

#[test]
fn join_places_separators_between_items() {
    assert_eq!(join(&vec![], "; "), "");
    assert_eq!(join(&vec!["a".to_string()], "; "), "a");
    assert_eq!(join(&vec!["a".to_string(), "b".to_string(), "c".to_string()], "; "), "a; b; c");
}

#[test]
fn pids_are_listed_with_commas() {
    assert_eq!(format_pids(&[]), "");
    assert_eq!(format_pids(&[7]), "7");
    assert_eq!(format_pids(&[1234, 5, 60]), "1234, 5, 60");
}

fn entry(pid: u32, name: &str) -> SnapshotEntry {
    SnapshotEntry { pid, exe_name: name.to_string() }
}

#[test]
fn discovery_ignores_case_and_keeps_order() {
    let entries = vec![entry(4, "System"), entry(10, "ICAD.exe"), entry(11, "notepad.exe"), entry(12, "icad.EXE")];
    assert_eq!(find_all_processes_by_name(&entries, "icad.exe"), vec![10, 12]);
    assert_eq!(find_all_processes_by_name(&entries, "ICAD.EXE"), vec![10, 12]);
    assert_eq!(find_all_processes_by_name(&entries, "icad"), Vec::<u32>::new());
    assert_eq!(find_process_by_name(&entries, "Icad.Exe"), Some(10));
    assert_eq!(find_process_by_name(&entries, "missing.exe"), None);
}

#[test]
fn exe_name_stops_at_nul() {
    let mut raw = vec![0u8; 16];
    raw[..8].copy_from_slice(b"icad.exe");
    raw[9] = b'x';
    assert_eq!(exe_name_from_raw(&raw), "icad.exe");
    assert_eq!(exe_name_from_raw(b"abc"), "abc");
    assert_eq!(exe_name_from_raw(&[0, b'a']), "");
    assert_eq!(exe_name_from_raw(&[b'a', 0xFF, 0]), "a\u{FFFD}");
}

#[test]
fn name_lookup_by_pid() {
    let entries = vec![entry(4, "System"), entry(10, "icad.exe"), entry(10, "later.exe")];
    assert_eq!(get_process_name_by_pid(&entries, 10), Ok("icad.exe".to_string()));
    assert_eq!(get_process_name_by_pid(&entries, 99), Err("Process with PID 99 not found".to_string()));
}

#[test]
fn discovery_error_messages() {
    assert_eq!(DiscoveryError::SnapshotFailed.message(), "Failed to create process snapshot");
    assert_eq!(DiscoveryError::FirstEntryFailed.message(), "Failed to get first process");
}

#[test]
fn default_config_selects_cores_four_and_five() {
    let c = Config::with_cpu_count(4);
    assert_eq!(c.target_process, "icad.exe");
    assert_eq!(c.core_selections, vec![false, false, false, false, true, true, false, false]);
    assert_eq!(c.priority_class, 0x8000);
    assert_eq!(c.processes.len(), 1);
    assert_eq!(c.processes[0].name, "icad.exe");
    assert!(c.processes[0].enabled);
    assert_eq!(default_core_selections(12).len(), 12);
}

#[test]
fn normalize_resizes_and_migrates_legacy_target() {
    let mut c = Config {
        target_process: "old.exe".to_string(),
        core_selections: vec![true, false, true],
        priority_class: 0x20,
        processes: vec![],
    };
    c.normalize(10);
    assert_eq!(c.core_selections.len(), 10);
    assert_eq!(&c.core_selections[..4], &[true, false, true, false]);
    assert_eq!(c.processes.len(), 1);
    assert_eq!(c.processes[0].name, "old.exe");
    assert_eq!(c.processes[0].core_selections, c.core_selections);
    assert_eq!(c.processes[0].priority_class, 0x20);

    let mut d = Config {
        target_process: String::new(),
        core_selections: vec![true; 20],
        priority_class: 0x20,
        processes: vec![ProcessConfig {
            name: "x.exe".to_string(),
            core_selections: vec![true; 20],
            priority_class: 0x80,
            enabled: false,
        }],
    };
    d.normalize(2);
    assert_eq!(d.core_selections, vec![true; 8]);
    assert_eq!(d.processes[0].core_selections, vec![true; 8]);
    assert!(!d.processes[0].enabled);
}

#[test]
fn target_list_edits_by_name() {
    let mut c = Config::with_cpu_count(8);
    assert_eq!(
        c.add_process_config("icad.exe".to_string(), vec![true], 0x20),
        Err("Process 'icad.exe' already exists".to_string())
    );
    assert_eq!(c.add_process_config("b.exe".to_string(), vec![true, true], 0x20), Ok(()));
    assert_eq!(c.processes.len(), 2);
    assert_eq!(c.update_process_config("b.exe", vec![false, true], 0x40, false), Ok(()));
    assert_eq!(c.processes[1].core_selections, vec![false, true]);
    assert_eq!(c.processes[1].priority_class, 0x40);
    assert!(!c.processes[1].enabled);
    assert_eq!(
        c.update_process_config("zzz.exe", vec![], 0, true),
        Err("Process 'zzz.exe' not found".to_string())
    );
    assert!(c.use_multi_process());
    let targets = c.enabled_targets();
    assert_eq!(targets, vec![("icad.exe".to_string(), 0x30, 0x8000)]);
    assert_eq!(c.remove_process_config("icad.exe"), Ok(()));
    assert_eq!(c.remove_process_config("icad.exe"), Err("Process 'icad.exe' not found".to_string()));
    assert_eq!(c.processes.len(), 1);
    assert!(!c.use_multi_process());
    assert!(c.enabled_targets().is_empty());
}

#[test]
fn kill_outcomes() {
    let mut pm = ProcessManager::new();
    pm.insert_if_absent(5);
    assert_eq!(
        pm.kill_process(5, TerminateOutcome::OpenFailed { elevated: false }),
        Err("Access denied to terminate PID 5. Run as Administrator to terminate processes.".to_string())
    );
    assert_eq!(
        pm.kill_process(5, TerminateOutcome::OpenFailed { elevated: true }),
        Err("Failed to open process PID 5 for termination. Process may have already exited or is protected.".to_string())
    );
    assert_eq!(pm.kill_process(5, TerminateOutcome::TerminateFailed), Err("Failed to terminate process PID 5".to_string()));
    assert!(pm.get(5).is_some());
    assert_eq!(pm.kill_process(5, TerminateOutcome::Terminated), Ok(()));
    assert_eq!(pm.get(5), None);
}

#[test]
fn details_merge_observation_and_registry() {
    let mut pm = ProcessManager::new();
    assert_eq!(pm.get_process_details(3, &None), Err("Failed to open process PID 3 for information".to_string()));
    let obs = ProcessObservation { name: None, priority: 0, affinity: Some(0xF) };
    let d = pm.get_process_details(3, &Some(obs)).unwrap();
    assert_eq!(d.name, "Unknown");
    assert_eq!(d.current_priority, None);
    assert_eq!(d.current_affinity, Some(0xF));
    assert!(!d.is_tracked);
    pm.insert_if_absent(3);
    let obs = ProcessObservation { name: Some("a.exe".to_string()), priority: 0x20, affinity: None };
    let d = pm.get_process_details(3, &Some(obs)).unwrap();
    assert_eq!(d.pid, 3);
    assert_eq!(d.name, "a.exe");
    assert_eq!(d.current_priority, Some(0x20));
    assert_eq!(d.current_affinity, None);
    assert!(d.is_tracked);
    assert_eq!(d.last_applied_affinity, None);
}

#[test]
fn fallback_mask_covers_the_cores() {
    assert_eq!(system_affinity_fallback(0), 0);
    assert_eq!(system_affinity_fallback(8), 0xFF);
    assert_eq!(system_affinity_fallback(63), u64::MAX >> 1);
    assert_eq!(system_affinity_fallback(64), u64::MAX);
    assert_eq!(system_affinity_fallback(128), u64::MAX);
}

#[test]
fn only_changed_states_are_logged() {
    let a = ProcessState::FoundAndMonitoring(1);
    assert!(!should_log(&a, &ProcessState::FoundAndMonitoring(1)));
    assert!(should_log(&a, &ProcessState::FoundAndMonitoring(2)));
    assert!(should_log(&a, &ProcessState::NotFound));
    let e = ProcessState::Error("x".to_string());
    assert!(!should_log(&e, &ProcessState::Error("x".to_string())));
    assert!(should_log(&e, &ProcessState::Error("y".to_string())));
    let g = ProcessState::MultiProcessFound(vec![("a".to_string(), vec![1, 2])]);
    assert!(!should_log(&g, &g.clone()));
    assert!(should_log(&g, &ProcessState::MultiProcessFound(vec![("a".to_string(), vec![1])])));
    assert!(should_log(&g, &ProcessState::MultiProcessMonitoring(vec![("a".to_string(), vec![1, 2])])));
}

#[test]
fn name_bytes_stop_at_first_nul() {
    assert_eq!(name_bytes(b"ab\0cd\0"), b"ab".to_vec());
    assert_eq!(name_bytes(b"abc"), b"abc".to_vec());
    assert_eq!(name_bytes(b""), Vec::<u8>::new());
}

#[test]
fn selection_by_exact_name() {
    let entries = vec![(1, "a.exe".to_string()), (2, "A.exe".to_string()), (3, "a.exe".to_string())];
    assert_eq!(select_pids_named(&entries, "a.exe"), vec![1, 3]);
    assert_eq!(select_pids_named(&entries, "b.exe"), Vec::<u32>::new());
}
