use std::sync::Mutex;

use clamav_daemon::binding::{ClamAVError, ScanOptions};
use clamav_daemon::config::ClamAVConfig;
use clamav_daemon::engine::{ScanTarget, ScanTask, TaskPriority, TaskQueue};
use clamav_daemon::manager::{EngineManager, EngineState};
use clamav_daemon::types::{
    DiscoveredFiles, FilePath, ProgressPercent, ScanProgress, ScanRate, ScanStatus, ScannedFiles,
    ThreatsFound, VirusName,
};

#[test]
fn test_task_queue_priority() {
    let mut queue = TaskQueue::new();

    let low_task = ScanTask::new(
        ScanTarget::File("/tmp/test1.txt".to_string()),
        TaskPriority::Low,
        ScanOptions::default(),
    );

    let high_task = ScanTask::new(
        ScanTarget::File("/tmp/test2.txt".to_string()),
        TaskPriority::High,
        ScanOptions::default(),
    );

    queue.push(low_task);
    queue.push(high_task);

    let next = queue.pop().unwrap();
    assert_eq!(next.priority, TaskPriority::High);
}

#[test]
fn test_scan_target_from_path() {
    let target = ScanTarget::from_path("/tmp/test.txt");
    assert!(matches!(target, ScanTarget::File(_)));

    let target = ScanTarget::from_path("/tmp");
    assert!(matches!(target, ScanTarget::Directory(_)));
}

#[test]
fn test_engine_manager_initialization() {
    let manager: EngineManager<u64> = EngineManager::new(ClamAVConfig {
        database_dir: "/test/db".to_string(),
        ..Default::default()
    });

    let result = manager.get_engine();
    assert!(result.is_err());

    assert_eq!(manager.get_state(), EngineState::Uninitialized);
}

#[test]
fn test_engine_manager_shutdown() {
    let mut manager: EngineManager<u64> = EngineManager::new(ClamAVConfig {
        database_dir: "/test/db".to_string(),
        ..Default::default()
    });

    // No native engine here: the loader reports the database load failure.
    let _init_result = manager.initialize(|_db, _certs| {
        Err(ClamAVError::DatabaseLoadFailed("cl_load failed with code: 2".to_string()))
    });

    manager.shutdown();

    assert_eq!(manager.get_state(), EngineState::Uninitialized);

    assert!(!manager.has_engine());
}

#[test]
fn test_error_display() {
    let err = ClamAVError::InitializationFailed("test error".to_string());
    assert_eq!(err.to_string(), "test error");
}

#[test]
fn test_scan_options_default() {
    let opts = ScanOptions::default();
    assert!(!opts.scan_archive);
    assert!(!opts.scan_pdf);
    assert!(!opts.scan_elf);
    assert!(!opts.scan_mail);
}

#[test]
fn test_scan_options_clone() {
    let opts = ScanOptions::default();
    let opts_clone = opts.clone();
    assert_eq!(opts.scan_archive, opts_clone.scan_archive);
}

#[test]
fn test_engine_state() {
    let state = Mutex::new(EngineState::Ready);

    {
        let _state = state.lock().unwrap();
        // Ready is the one operational state.
        assert!(_state.is_operational() == true);
        assert!(_state.is_ready() == true);
    }
}

#[test]
fn test_progress_default() {
    let progress = ScanProgress::new();
    assert_eq!(progress.percent.0, 0);
    assert_eq!(progress.scanned_files.0, 0);
    assert_eq!(progress.threats_found.0, 0);
    assert!(progress.current_file.is_none());
    assert_eq!(progress.discovered_files.0, 0);
    assert!(progress.scan_rate.is_none());
}

#[test]
fn test_progress_update() {
    let mut progress = ScanProgress::new();
    progress.percent = ProgressPercent(50);
    progress.scanned_files = ScannedFiles(100);
    progress.threats_found = ThreatsFound(2);
    progress.current_file = Some(FilePath("/test/file.txt".to_string()));
    progress.discovered_files = DiscoveredFiles(200);
    // 45.5 files per second, in thousandths.
    progress.scan_rate = Some(ScanRate(45_500));

    assert_eq!(progress.percent, ProgressPercent(50));
    assert_eq!(progress.scanned_files, ScannedFiles(100));
    assert_eq!(progress.threats_found, ThreatsFound(2));
    assert_eq!(progress.current_file, Some(FilePath("/test/file.txt".to_string())));
    assert_eq!(progress.discovered_files, DiscoveredFiles(200));
    assert_eq!(progress.scan_rate, Some(ScanRate(45_500)));
}

#[test]
fn test_scan_status_display() {
    assert_eq!(ScanStatus::Idle.to_string(), "空闲");
    assert_eq!(ScanStatus::Scanning.to_string(), "扫描中");
    assert_eq!(ScanStatus::Paused.to_string(), "已暂停");
    assert_eq!(ScanStatus::Completed.to_string(), "已完成");
    assert_eq!(ScanStatus::Failed("error".to_string()).to_string(), "失败: error");
}

#[test]
fn test_virus_name_display() {
    let name = VirusName("Eicar-Test-Signature".to_string());
    assert_eq!(name.to_string(), "Eicar-Test-Signature");
}
