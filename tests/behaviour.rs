use clamav_daemon::binding::{
    check_init_step, interpret_scan, native_scan_options, cl_verdict_t, ClamAVError, InitStep,
    ScanOptions, ScanResult,
};
use clamav_daemon::config::{AppConfig, PathsValue, SettingsPatch, lines_to_paths};
use clamav_daemon::engine::{EngineCore, ScanTarget, ScanTask, TaskPriority, TaskState};
use clamav_daemon::env::FnosEnv;
use clamav_daemon::models::{handled_threat, status_from_snapshot, ThreatAction, ThreatRecord};
use clamav_daemon::mounts::full_scan_paths;
use clamav_daemon::quarantine::{
    cleanup_tally, expired, is_sidecar_name, select_expired, QuarantineMetadata, QuarantineService,
};
use clamav_daemon::service::{HistoryWrite, ScanService};
use clamav_daemon::signatures::parse_cvd_version;
use clamav_daemon::types::{ScanProgress, ScanStatus};
use clamav_daemon::worker::{
    missing_target, scan_percent, single_file_finish, single_file_start, EntryKind, NextFile, ScanRun,
};

fn task(id: &str, path: &str, priority: TaskPriority) -> ScanTask {
    ScanTask::with_identity(
        id.to_string(),
        0,
        ScanTarget::File(path.to_string()),
        priority,
        ScanOptions::default(),
    )
}

fn running(tasks: &[ScanTask]) -> usize {
    tasks.iter().filter(|t| t.state == TaskState::Running).count()
}

fn env() -> FnosEnv {
    FnosEnv::from_values(Some("/app".to_string()), Some("/vol1/data:/vol2".to_string()), None, None, None).unwrap()
}

#[test]
fn single_running_task_through_submit_cancel_finish() {
    let mut core = EngineCore::new();
    let (_, first) = core.submit(task("a", "/a", TaskPriority::Normal));
    assert_eq!(first.unwrap().id, "a");
    let (_, none) = core.submit(task("b", "/b", TaskPriority::High));
    assert!(none.is_none());
    assert_eq!(running(&core.list_tasks()), 1);
    assert!(core.cancel("a"));
    assert!(core.cancel_requested());
    assert_eq!(running(&core.list_tasks()), 0);
    // The cancelled worker reports back; the raised flag holds the queue.
    assert!(core.finish("a").is_none());
    let next = core.resume().unwrap();
    assert_eq!(next.id, "b");
    assert_eq!(next.state, TaskState::Running);
    assert_eq!(running(&core.list_tasks()), 1);
    let after = core.finish("b");
    assert!(after.is_none());
    assert_eq!(core.list_tasks().len(), 0);
}

#[test]
fn high_priority_dispatched_before_low() {
    let mut core = EngineCore::new();
    let (_, started) = core.submit(task("busy", "/busy", TaskPriority::Normal));
    assert!(started.is_some());
    core.submit(task("low", "/a", TaskPriority::Low));
    core.submit(task("high", "/b", TaskPriority::High));
    let next = core.finish("busy").unwrap();
    assert_eq!(next.id, "high");
    assert_eq!(next.target.path(), "/b");
}

#[test]
fn equal_priorities_leave_in_arrival_order() {
    let mut core = EngineCore::new();
    core.submit(task("busy", "/busy", TaskPriority::High));
    core.submit(task("n1", "/1", TaskPriority::Normal));
    core.submit(task("n2", "/2", TaskPriority::Normal));
    core.submit(task("n3", "/3", TaskPriority::Normal));
    let ids: Vec<String> = core.list_tasks().into_iter().map(|t| t.id).collect();
    assert_eq!(ids, vec!["n1", "n2", "n3", "busy"]);
    assert_eq!(core.finish("busy").unwrap().id, "n1");
}

#[test]
fn cancel_reports_whether_anything_matched() {
    let mut core = EngineCore::new();
    core.submit(task("a", "/a", TaskPriority::Normal));
    core.submit(task("b", "/b", TaskPriority::Normal));
    assert!(core.cancel("b"));
    assert!(!core.cancel("zzz"));
    assert!(core.get_task("b").is_none());
    assert_eq!(core.get_task("a").unwrap().state, TaskState::Running);
    assert!(core.pause("a"));
    assert!(!core.pause("b"));
}

#[test]
fn new_task_gets_uuid_identifier() {
    let t = ScanTask::new(ScanTarget::File("/x".to_string()), TaskPriority::Low, ScanOptions::default());
    assert_eq!(t.id.len(), 36);
    assert_eq!(t.id.chars().filter(|c| *c == '-').count(), 4);
    assert_eq!(t.state, TaskState::Pending);
}

fn clean(path: &str) -> Result<ScanResult, ClamAVError> {
    Ok(ScanResult { filename: path.to_string(), virus_name: None, is_infected: false })
}

#[test]
fn directory_run_reports_monotone_progress_and_completes() {
    let (mut run, first) = ScanRun::start("/data", 0);
    assert_eq!(first.percent.0, 0);
    assert_eq!(first.current_file.as_ref().unwrap().0, "/data");
    let root = run.next_directory(false).unwrap();
    assert_eq!(root, "/data");
    run.add_entry("/data/sub".to_string(), EntryKind::Directory, false);
    run.add_entry("/data/a".to_string(), EntryKind::File, false);
    run.add_entry("/data/b".to_string(), EntryKind::File, false);
    run.add_entry("/data/b".to_string(), EntryKind::Other, false);
    assert_eq!(run.next_directory(false).unwrap(), "/data/sub");
    run.add_entry("/data/sub/c".to_string(), EntryKind::File, false);
    assert!(run.next_directory(false).is_none());
    let mut reports: Vec<ScanProgress> = vec![first];
    let mut now = 0u64;
    loop {
        match run.next_file(false, now) {
            NextFile::Scan(p) => {
                now += 150;
                if let Some(r) = run.record_result(&clean(&p), now) {
                    reports.push(r);
                }
            }
            NextFile::Wait => run.finish_discovery(),
            NextFile::Finished => break,
        }
    }
    let (outcome, last) = run.into_outcome();
    reports.push(last.unwrap());
    assert_eq!(outcome.status, ScanStatus::Completed);
    assert_eq!(outcome.total_files, 3);
    assert_eq!(outcome.scanned_files, 3);
    assert_eq!(reports.len(), 5);
    assert_eq!(reports[1].percent.0, 33);
    assert_eq!(reports[2].percent.0, 66);
    for w in reports.windows(2) {
        assert!(w[0].scanned_files.0 <= w[1].scanned_files.0);
        assert!(w[0].discovered_files.0 <= w[1].discovered_files.0);
        assert!(w[1].scanned_files.0 <= w[1].discovered_files.0);
    }
    assert_eq!(reports[4].percent.0, 100);
    assert!(reports[4].current_file.is_none());
}

#[test]
fn empty_directory_completes_with_two_reports() {
    let (mut run, first) = ScanRun::start("/empty", 0);
    assert_eq!(run.next_directory(false).unwrap(), "/empty");
    assert!(run.next_directory(false).is_none());
    run.finish_discovery();
    assert_eq!(run.next_file(false, 5), NextFile::Finished);
    let (outcome, last) = run.into_outcome();
    let last = last.unwrap();
    assert_eq!(first.scanned_files.0, 0);
    assert_eq!(last.percent.0, 100);
    assert_eq!(last.discovered_files.0, 0);
    assert_eq!(outcome.status, ScanStatus::Completed);
    assert_eq!(outcome.total_files, 0);
    assert_eq!(outcome.scanned_files, 0);
    assert!(outcome.threats.is_empty());
}

#[test]
fn cancel_before_first_scan_fails_the_run() {
    let (mut run, _) = ScanRun::start("/data", 0);
    run.next_directory(false);
    run.add_entry("/data/a".to_string(), EntryKind::File, false);
    assert_eq!(run.next_file(true, 1), NextFile::Finished);
    let (outcome, last) = run.into_outcome();
    assert!(last.is_none());
    assert_eq!(outcome.status, ScanStatus::Failed("Scan cancelled".to_string()));
    assert_eq!(outcome.scanned_files, 0);
    assert_eq!(outcome.error_message, Some("Scan cancelled".to_string()));
}

#[test]
fn cancel_during_discovery_fails_the_run() {
    let (mut run, _) = ScanRun::start("/data", 0);
    assert!(run.next_directory(true).is_none());
    let (outcome, _) = run.into_outcome();
    assert_eq!(outcome.status, ScanStatus::Failed("Scan cancelled".to_string()));
}

#[test]
fn smoothed_rate_follows_the_moving_average() {
    let (mut run, _) = ScanRun::start("/d", 0);
    run.next_directory(false);
    run.add_entry("/d/a".to_string(), EntryKind::File, false);
    run.add_entry("/d/b".to_string(), EntryKind::File, false);
    run.finish_discovery();
    // First file taken at t = 0 ms; scanned at 1000 ms: 1 file/s.
    assert_eq!(run.next_file(false, 0), NextFile::Scan("/d/a".to_string()));
    let r1 = run.record_result(&clean("/d/a"), 1000).unwrap();
    assert_eq!(r1.scan_rate.unwrap().0, 1000);
    // Second at 4000 ms: 0.5 files/s, smoothed 0.3 * 500 + 0.7 * 1000.
    assert_eq!(run.next_file(false, 4000), NextFile::Scan("/d/b".to_string()));
    let r2 = run.record_result(&clean("/d/b"), 4000).unwrap();
    assert_eq!(r2.scan_rate.unwrap().0, 850);
    assert_eq!(r2.percent.0, 100);
}

#[test]
fn infected_and_failed_results() {
    let (mut run, _) = ScanRun::start("/d", 0);
    run.next_directory(false);
    run.add_entry("/d/eicar.com".to_string(), EntryKind::File, false);
    run.add_entry("/d/broken".to_string(), EntryKind::File, false);
    run.finish_discovery();
    run.next_file(false, 0);
    let infected = Ok(ScanResult {
        filename: "/d/eicar.com".to_string(),
        virus_name: None,
        is_infected: true,
    });
    let r = run.record_result(&infected, 200).unwrap();
    assert_eq!(r.threats_found.0, 1);
    run.next_file(false, 300);
    let failed = Err(ClamAVError::ScanFailed("cl_scanfile_ex failed with code: 8".to_string()));
    assert!(run.record_result(&failed, 900).is_none());
    assert_eq!(run.next_file(false, 1000), NextFile::Finished);
    let (outcome, last) = run.into_outcome();
    assert_eq!(outcome.scanned_files, 1);
    assert_eq!(outcome.total_files, 2);
    assert_eq!(outcome.threats.len(), 1);
    assert_eq!(outcome.threats[0].0 .0, "/d/eicar.com");
    assert_eq!(outcome.threats[0].1 .0, "Unknown");
    assert_eq!(last.unwrap().threats_found.0, 1);
}

#[test]
fn single_file_scan_reports_twice() {
    let first = single_file_start("/tmp/ok.txt");
    assert_eq!(first.total_files.0, 1);
    assert_eq!(first.scanned_files.0, 0);
    assert_eq!(first.percent.0, 0);
    let (last, outcome) = single_file_finish(Some(clean("/tmp/ok.txt")));
    let last = last.unwrap();
    assert_eq!(last.percent.0, 100);
    assert_eq!(last.scanned_files.0, 1);
    assert_eq!(last.threats_found.0, 0);
    assert_eq!(outcome.status, ScanStatus::Completed);
    assert_eq!(outcome.total_files, 1);
    assert_eq!(outcome.scanned_files, 1);
    assert!(outcome.threats.is_empty());
}

#[test]
fn single_infected_file_reports_its_threat() {
    let (last, outcome) = single_file_finish(Some(Ok(ScanResult {
        filename: "/tmp/eicar.com".to_string(),
        virus_name: Some("Eicar-Signature".to_string()),
        is_infected: true,
    })));
    assert_eq!(last.unwrap().threats_found.0, 1);
    assert_eq!(outcome.threats.len(), 1);
    assert_eq!(outcome.threats[0].0 .0, "/tmp/eicar.com");
    assert_ne!(outcome.threats[0].1 .0, "Unknown");
}

#[test]
fn missing_target_fails_with_its_path() {
    let o = missing_target("/nope");
    assert_eq!(o.status, ScanStatus::Failed("Path does not exist: /nope".to_string()));
}

#[test]
fn percent_formula() {
    assert_eq!(scan_percent(1, 3), 33);
    assert_eq!(scan_percent(5, 4), 100);
    assert_eq!(scan_percent(7, 0), 0);
}

#[test]
fn native_codes_map_to_errors() {
    assert!(check_init_step(&InitStep::Compile, 0).is_ok());
    assert_eq!(
        check_init_step(&InitStep::GlobalInit, -3),
        Err(ClamAVError::InitializationFailed("cl_init failed with code: -3".to_string()))
    );
    assert_eq!(
        check_init_step(&InitStep::LoadDatabase, 2),
        Err(ClamAVError::DatabaseLoadFailed("cl_load failed with code: 2".to_string()))
    );
    assert_eq!(
        check_init_step(&InitStep::Compile, 11),
        Err(ClamAVError::EngineCompilationFailed("cl_engine_compile failed with code: 11".to_string()))
    );
    assert_eq!(
        check_init_step(&InitStep::SetCertsDir("/certs".to_string()), 5),
        Err(ClamAVError::InitializationFailed("Failed to set certs directory '/certs': error code 5".to_string()))
    );
}

#[test]
fn verdicts_map_to_results() {
    let v = interpret_scan("/f", 0, 2, Some("Win.Test".to_string())).unwrap();
    assert!(v.is_infected);
    assert_eq!(v.virus_name.as_deref(), Some("Win.Test"));
    let v = interpret_scan("/f", 0, 3, None).unwrap();
    assert_eq!(v.virus_name.as_deref(), Some("Unknown"));
    assert!(!interpret_scan("/f", 0, 1, None).unwrap().is_infected);
    assert!(!interpret_scan("/f", 0, 0, None).unwrap().is_infected);
    assert_eq!(
        interpret_scan("/f", 12, 0, None),
        Err(ClamAVError::ScanFailed("cl_scanfile_ex failed with code: 12".to_string()))
    );
    assert_eq!(cl_verdict_t::from_code(2), Some(cl_verdict_t::CL_VERDICT_STRONG_INDICATOR));
    assert_eq!(cl_verdict_t::from_code(9), None);
    let o = native_scan_options(&ScanOptions::default());
    assert_eq!(o.general, 5);
    assert_eq!(o.parse, u32::MAX);
}

#[test]
fn terminal_record_written_once() {
    let mut svc = ScanService::new();
    let target = svc
        .start_scan("S".to_string(), vec!["/tmp".to_string()], vec![ScanTarget::Directory("/tmp".to_string())], 100)
        .unwrap();
    assert_eq!(target.path(), "/tmp");
    assert!(svc.bind_task("S", "t1".to_string()));
    let mut p = ScanProgress::new();
    p.scanned_files.0 = 1;
    p.total_files.0 = 4;
    p.discovered_files.0 = 4;
    assert!(matches!(svc.on_progress("t1", &p), Some(HistoryWrite::Progress { scanned: 1, total: 4, .. })));
    p.scanned_files.0 = 4;
    assert!(svc.on_progress("t1", &p).is_none());
    let outcome = clamav_daemon::types::ScanOutcome::success(4, 4, vec![]);
    match svc.on_complete("t1", &outcome) {
        Some(HistoryWrite::Finish { scan_id, status, total_files, message, .. }) => {
            assert_eq!(scan_id, "S");
            assert_eq!(status, "completed");
            assert_eq!(total_files, 4);
            assert_eq!(message, "扫描完成，未发现威胁");
        }
        other => panic!("unexpected {:?}", other),
    }
    assert!(svc.on_complete("t1", &outcome).is_none());
    assert!(svc.on_progress("t1", &p).is_none());
    assert!(svc.stop_scan("S").is_err());
    assert!(!svc.is_scanning());
    assert!(svc.scan_snapshot("S").is_none());
    assert!(svc.get_current_scan_progress().is_none());
}

#[test]
fn stop_writes_stopped_and_cancels_the_task() {
    let mut svc = ScanService::new();
    svc.start_scan("S".to_string(), vec![], vec![ScanTarget::File("/x".to_string())], 0).unwrap();
    svc.bind_task("S", "t9".to_string());
    let (task_id, w) = svc.stop_scan("S").unwrap();
    assert_eq!(task_id, "t9");
    assert!(matches!(w, HistoryWrite::Finish { ref status, .. } if status == "stopped"));
    let failed = clamav_daemon::types::ScanOutcome::failed("Scan cancelled".to_string());
    assert!(svc.on_complete("t9", &failed).is_none());
    assert_eq!(svc.stop_scan("S").unwrap_err(), "Scan not found: S");
}

#[test]
fn start_scan_needs_an_existing_path() {
    let mut svc = ScanService::new();
    assert_eq!(svc.start_scan("S".to_string(), vec!["/nope".to_string()], vec![], 0).unwrap_err(), "No valid paths to scan");
    svc.start_scan("S".to_string(), vec![], vec![ScanTarget::File("/x".to_string())], 0).unwrap();
    assert_eq!(
        svc.start_scan("S".to_string(), vec![], vec![ScanTarget::File("/x".to_string())], 0).unwrap_err(),
        "Scan already active: S"
    );
    let (_, w) = svc.set_paused("S", true).unwrap();
    assert!(matches!(w, HistoryWrite::Status { ref status, .. } if status == "paused"));
    assert_eq!(svc.scan_snapshot("S").unwrap().status, "paused");
    let view = status_from_snapshot(&svc.get_current_scan_progress().unwrap(), 10);
    assert!(!view.show_progress);
    assert_eq!(view.elapsed_seconds, Some(10));
}

#[test]
fn failed_outcome_records_failed() {
    let mut svc = ScanService::new();
    svc.start_scan("S".to_string(), vec![], vec![ScanTarget::File("/x".to_string())], 0).unwrap();
    svc.bind_task("S", "t".to_string());
    let failed = clamav_daemon::types::ScanOutcome::failed("Scan cancelled".to_string());
    match svc.on_complete("t", &failed).unwrap() {
        HistoryWrite::Finish { status, message, .. } => {
            assert_eq!(status, "failed");
            assert_eq!(message, "Scan cancelled");
        }
        _ => panic!("terminal record expected"),
    }
}

#[test]
fn vault_paths_round_trip() {
    let vault = QuarantineService::new(env());
    let m = QuarantineMetadata::with_identity(
        "0b1c".to_string(),
        1000,
        "/tmp/t.bin".to_string(),
        "X".to_string(),
        "S".to_string(),
        12,
    );
    assert_eq!(m.original_name, "t.bin");
    let plan = vault.plan_quarantine(m.clone());
    assert_eq!(plan.payload_path, "/vol1/data/quarantine/files/0b1c");
    assert_eq!(plan.sidecar_path, "/vol1/data/quarantine/metadata/0b1c.json");
    assert_eq!(plan.files_dir, "/vol1/data/quarantine/files");
    let restore = vault.plan_restore("0b1c", &m);
    assert_eq!(restore.payload_path, plan.payload_path);
    assert_eq!(restore.destination, "/tmp/t.bin");
    assert_eq!(restore.sidecar_path, plan.sidecar_path);
    let (payload, sidecar) = vault.plan_delete("0b1c");
    assert_eq!(payload, plan.payload_path);
    assert_eq!(sidecar, plan.sidecar_path);
}

#[test]
fn new_metadata_has_fresh_uuid_and_name() {
    let m = QuarantineMetadata::new("/tmp/dir/file.exe".to_string(), "X".to_string(), "S".to_string(), 3);
    assert_eq!(m.uuid.len(), 36);
    assert_eq!(m.original_name, "file.exe");
    let n = QuarantineMetadata::new("plain".to_string(), "X".to_string(), "S".to_string(), 3);
    assert_eq!(n.original_name, "plain");
    assert_ne!(m.uuid, n.uuid);
}

#[test]
fn cleanup_zero_days_removes_only_older_entries() {
    assert!(expired(99, 100, 0));
    assert!(!expired(100, 100, 0));
    assert!(!expired(101, 100, 0));
    assert!(expired(100 - 86400 - 1, 100, 1));
    assert!(!expired(100 - 86400, 100, 1));
    let entries = vec![
        QuarantineMetadata::with_identity("old".to_string(), 10, "/a".to_string(), "X".to_string(), "S".to_string(), 5),
        QuarantineMetadata::with_identity("new".to_string(), 100, "/b".to_string(), "X".to_string(), "S".to_string(), 7),
    ];
    assert_eq!(select_expired(&entries, 100, 0), vec!["old".to_string()]);
    assert_eq!(cleanup_tally(&vec![5, 7]), (2, 12));
    assert_eq!(cleanup_tally(&vec![]), (0, 0));
}

#[test]
fn sidecar_names() {
    assert!(is_sidecar_name("/v/metadata/abc.json"));
    assert!(!is_sidecar_name("/v/metadata/.json"));
    assert!(!is_sidecar_name("/v/metadata/abc.txt"));
}

#[test]
fn environment_paths() {
    let e = env();
    assert_eq!(e.data_dir(), "/vol1/data");
    assert_eq!(e.clamav_db_dir(), "/vol1/data/clamav");
    assert_eq!(e.quarantine_dir(), "/vol1/data/quarantine");
    assert_eq!(e.history_db(), "/vol1/data/history.db");
    assert_eq!(e.settings_file(), "/app/config/settings.json");
    assert_eq!(e.log_file(), "/app/var/daemon.log");
    assert_eq!(e.pid_file(), "/app/var/daemon.pid");
    assert_eq!(e.scan_state_file(), "/app/var/scan_state.json");
    assert_eq!(e.clamscan_bin(), "/app/bin/clamscan");
    assert_eq!(e.freshclam_bin(), "/app/bin/freshclam");
    assert_eq!(
        FnosEnv::from_values(None, None, None, None, None).unwrap_err(),
        "TRIM_APPDEST not set"
    );
    let d = FnosEnv::from_values(Some("/a".to_string()), None, None, None, None).unwrap();
    assert_eq!(d.data_dir(), "/tmp/clamav_data");
    assert_eq!(d.pkg_tmp, "/tmp");
}

#[test]
fn full_scan_mount_selection() {
    let table = "proc /proc proc rw 0 0\n\
                 /dev/sda1 / ext4 rw 0 0\n\
                 /dev/sdb1 /vol1 btrfs rw 0 0\n\
                 tmpfs /tmp tmpfs rw 0 0\n\
                 overlay /vol1/docker/merged overlay rw 0 0\n\
                 /dev/sdb1 /vol1/.zfs/snapshot/x zfs rw 0 0\n\
                 /dev/sdc1 /home ext4 rw 0 0\n\
                 /dev/sdb1 /vol1 btrfs rw 0 0\n\
                 /dev/sdd1 /vol2/@appcenter/x ext4 rw 0 0\n\
                 /dev/sde1 /opt ext4 rw 0 0\n";
    assert_eq!(full_scan_paths(table), vec!["/", "/home", "/vol1"]);
    assert_eq!(full_scan_paths("tmpfs /run tmpfs rw 0 0\n"), vec!["/"]);
    assert_eq!(full_scan_paths(""), vec!["/"]);
}

#[test]
fn signature_header_versions() {
    let mut h = b"ClamAV-VDB:10 Feb 2026 07-25 +0000:27908:2087302:90:sig".to_vec();
    h.resize(512, b' ');
    assert_eq!(parse_cvd_version(&h), Some(27908));
    assert_eq!(parse_cvd_version(&b"ClamAV-VDB:date: 62 :x".to_vec()), Some(62));
    assert_eq!(parse_cvd_version(&b"ClamAV-VDB:date:abc:x".to_vec()), None);
    assert_eq!(parse_cvd_version(&b"Other:date:12:x".to_vec()), None);
    assert_eq!(parse_cvd_version(&b"ClamAV-VDB:date:99999999999:x".to_vec()), None);
    assert_eq!(parse_cvd_version(&b"ClamAV-VDB:nocolon".to_vec()), None);
}

#[test]
fn settings_patch_applies_flat_then_grouped() {
    let mut c = AppConfig::default();
    let patch = SettingsPatch {
        scan_paths: Some(PathsValue::Lines(" /a \n\n/b\n   \n".to_string())),
        auto_update: Some(false),
        threat_action: Some("delete".to_string()),
        threat_action_nested: Some("none".to_string()),
        history_retention_days: Some(7),
        ..Default::default()
    };
    c.apply(patch);
    assert_eq!(c.scan.exclude_paths, vec!["/a".to_string(), "/b".to_string()]);
    assert!(!c.update.auto_check);
    assert_eq!(c.threat.action, "none");
    assert_eq!(c.history.retention_days, 7);
    assert_eq!(c.history.max_records, 1000);
    assert_eq!(lines_to_paths("x\n y"), vec!["x".to_string(), "y".to_string()]);
}

#[test]
fn threat_actions() {
    assert_eq!(ThreatAction::parse("quarantine"), Some(ThreatAction::Quarantine));
    assert_eq!(ThreatAction::parse("ignore"), Some(ThreatAction::Ignore));
    assert_eq!(ThreatAction::parse("burn"), None);
    let rec = ThreatRecord {
        id: 3,
        scan_id: "S".to_string(),
        file_path: "/f".to_string(),
        virus_name: "V".to_string(),
        action_taken: None,
        action_time: None,
        original_location: None,
        file_hash: None,
    };
    let item = handled_threat(rec, ThreatAction::Quarantine, Some("u".to_string()), 50);
    assert_eq!(item.action_taken.as_deref(), Some("quarantined"));
    assert_eq!(item.quarantine_uuid.as_deref(), Some("u"));
    assert_eq!(item.detected_time, 50);
    assert_eq!(item.action_time, Some(50));
}

#[test]
fn target_kind_follows_the_flag() {
    assert!(matches!(ScanTarget::with_kind("/d", true), ScanTarget::Directory(ref p) if p == "/d"));
    assert!(matches!(ScanTarget::with_kind("/f", false), ScanTarget::File(ref p) if p == "/f"));
}

#[test]
fn progress_write_follows_discovered_files() {
    let mut svc = ScanService::new();
    svc.start_scan("S".to_string(), vec![], vec![ScanTarget::Directory("/d".to_string())], 0).unwrap();
    assert!(svc.bind_task("S", "t".to_string()));
    let mut p = ScanProgress::new();
    p.scanned_files.0 = 1;
    p.total_files.0 = 1;
    p.discovered_files.0 = 2;
    assert!(matches!(svc.on_progress("t", &p), Some(HistoryWrite::Progress { scanned: 1, .. })));
    p.discovered_files.0 = 1;
    p.total_files.0 = 5;
    assert!(svc.on_progress("t", &p).is_none());
    assert_eq!(svc.scan_snapshot("S").unwrap().total_files, 5);
}

#[test]
fn bind_refuses_a_task_already_bound() {
    let mut svc = ScanService::new();
    svc.start_scan("A".to_string(), vec![], vec![ScanTarget::File("/a".to_string())], 0).unwrap();
    svc.start_scan("B".to_string(), vec![], vec![ScanTarget::File("/b".to_string())], 0).unwrap();
    assert!(svc.bind_task("A", "t".to_string()));
    assert!(!svc.bind_task("B", "t".to_string()));
    assert!(!svc.bind_task("C", "u".to_string()));
    assert_eq!(svc.scan_snapshot("A").unwrap().task_id, "t");
    assert_eq!(svc.scan_snapshot("B").unwrap().task_id, "");
}

#[test]
fn cancelled_worker_must_stop_before_next_dispatch() {
    let mut core = EngineCore::new();
    core.submit(task("a", "/a", TaskPriority::Normal));
    assert!(core.cancel("a"));
    let (_, started) = core.submit(task("b", "/b", TaskPriority::Normal));
    assert!(started.is_none());
    assert!(core.resume().is_none());
    let next = core.finish("a").unwrap();
    assert_eq!(next.id, "b");
    assert_eq!(running(&core.list_tasks()), 1);
}

#[test]
fn discovery_polls_cancel_every_thousand_entries() {
    let (mut run, _) = ScanRun::start("/big", 0);
    run.next_directory(false);
    for i in 0..999 {
        assert!(run.add_entry(format!("/big/f{}", i), EntryKind::File, true));
    }
    assert!(!run.add_entry("/big/last".to_string(), EntryKind::File, true));
    assert_eq!(run.next_file(false, 0), NextFile::Finished);
    let (outcome, last) = run.into_outcome();
    assert!(last.is_none());
    assert_eq!(outcome.error_message, Some("Scan cancelled".to_string()));
}

#[test]
fn reports_come_after_the_interval() {
    let (mut run, _) = ScanRun::start("/d", 1000);
    run.next_directory(false);
    for name in ["/d/a", "/d/b", "/d/c"] {
        run.add_entry(name.to_string(), EntryKind::File, false);
    }
    run.finish_discovery();
    run.next_file(false, 1000);
    assert!(run.record_result(&clean("/d/a"), 1100).is_none());
    run.next_file(false, 1100);
    let r = run.record_result(&clean("/d/b"), 1101).unwrap();
    assert_eq!(r.scanned_files.0, 2);
    assert_eq!(r.current_file.unwrap().0, "/d/b");
    run.next_file(false, 1101);
    assert!(run.record_result(&clean("/d/c"), 1201).is_none());
}

#[test]
fn single_file_cancelled_before_scan() {
    let (last, outcome) = single_file_finish(None);
    assert!(last.is_none());
    assert_eq!(outcome.status, ScanStatus::Failed("Scan cancelled".to_string()));
    assert_eq!(outcome.error_message, Some("Scan cancelled".to_string()));
}

#[test]
fn freed_bytes_saturate() {
    assert_eq!(cleanup_tally(&vec![u64::MAX - 1, 5, 3]), (3, u64::MAX));
    assert_eq!(cleanup_tally(&vec![1, 2, 3]), (3, 6));
}
