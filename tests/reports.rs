use clamav_daemon::clamscan::{parse_scan_line, parse_threat_line};
use clamav_daemon::update::{result_label, update_duration, update_summary, UpdateRecord, UpdateTracker};

#[test]
fn scanner_report_lines() {
    assert_eq!(
        parse_scan_line("/data/a.txt: OK"),
        Some(("/data/a.txt".to_string(), "OK".to_string()))
    );
    assert_eq!(
        parse_scan_line("/data/eicar.com: Eicar-Signature FOUND"),
        Some(("/data/eicar.com".to_string(), "FOUND".to_string()))
    );
    assert_eq!(parse_scan_line(""), None);
    assert_eq!(parse_scan_line("----------- SCAN SUMMARY -----------"), None);
    assert_eq!(parse_scan_line("Scanned files: 3"), None);
    assert_eq!(parse_scan_line("/data/x: Can't open file ERROR"), None);
    assert_eq!(parse_scan_line("/data/x: Empty file"), None);
    assert_eq!(parse_scan_line("no colon here"), None);
}

#[test]
fn scanner_threat_lines() {
    assert_eq!(
        parse_threat_line("/data/eicar.com: Eicar-Signature FOUND"),
        Some(("/data/eicar.com".to_string(), "Eicar-Signature".to_string()))
    );
    assert_eq!(
        parse_threat_line("/data/my file.exe: Win.Trojan FOUND"),
        Some(("/data/my file.exe".to_string(), "Win.Trojan".to_string()))
    );
    assert_eq!(parse_threat_line("FOUND"), None);
    assert_eq!(parse_threat_line("x FOUND"), None);
}

#[test]
fn one_update_at_a_time() {
    let mut t = UpdateTracker::new();
    assert!(!t.get_status().is_updating);
    assert!(t.begin("1".to_string()).is_ok());
    assert_eq!(t.begin("2".to_string()).unwrap_err(), "Update already in progress");
    let s = t.get_status();
    assert!(s.is_updating);
    assert_eq!(s.current_update_id.as_deref(), Some("1"));
    t.finish();
    assert!(!t.get_status().is_updating);
    assert!(t.begin("3".to_string()).is_ok());
}

#[test]
fn update_summaries() {
    let rec = UpdateRecord {
        id: 1,
        start_time: 100,
        end_time: Some(160),
        result: "success".to_string(),
        old_version: Some("27000".to_string()),
        new_version: None,
        error_message: None,
    };
    let idle = UpdateTracker::new().get_status();
    let s = update_summary(&idle, &Some(rec.clone()));
    assert_eq!(s.status, "idle");
    assert_eq!(s.daily.as_deref(), Some("27000"));
    assert_eq!(s.last_update, Some(160));
    assert_eq!(update_duration(&rec), 60);
    let open = UpdateRecord { end_time: None, ..rec };
    assert_eq!(update_duration(&open), 0);
    assert_eq!(update_summary(&idle, &None).last_update, None);
    assert_eq!(result_label(true), "success");
    assert_eq!(result_label(false), "failed");
}

#[test]
fn unicode_white_space_is_trimmed() {
    assert_eq!(
        clamav_daemon::config::lines_to_paths("\u{3000}/x\u{a0}\n \t \n"),
        vec!["/x".to_string()]
    );
    assert_eq!(
        parse_scan_line("\u{2003}/data/a.txt :\tOK\u{85}"),
        Some(("/data/a.txt".to_string(), "OK".to_string()))
    );
}
