use vstd::prelude::*;
use crate::service::ActiveScan;
use crate::text::same_text;

verus! {

/// Kind of scan a client asks for.
#[derive(Debug, Clone, Copy, PartialEq, Eq, Structural)]
pub enum ScanType {
    /// Every data volume of the machine.
    Full,
    /// The paths the client gives.
    Custom,
}

impl ScanType {
    /// The name recorded in the history store.
    pub fn name(&self) -> (r: &'static str)
        ensures
            *self == ScanType::Full ==> r@ == "full"@,
            *self == ScanType::Custom ==> r@ == "custom"@,
    {
        match self {
            ScanType::Full => "full",
            ScanType::Custom => "custom",
        }
    }
}

/// What a client asks to do with a detected threat.
#[derive(Debug, Clone, Copy, PartialEq, Eq, Structural)]
pub enum ThreatAction {
    Quarantine,
    Delete,
    Ignore,
}

impl ThreatAction {
    /// The action a request names: "quarantine", "delete" or "ignore".
    pub fn parse(action: &str) -> (r: Option<ThreatAction>)
        ensures
            action@ == "quarantine"@ <==> r == Some(ThreatAction::Quarantine),
            action@ == "delete"@ <==> r == Some(ThreatAction::Delete),
            action@ == "ignore"@ <==> r == Some(ThreatAction::Ignore),
    {
        proof {
            reveal_strlit("quarantine");
            reveal_strlit("delete");
            reveal_strlit("ignore");
            assert("quarantine"@.len() != "delete"@.len());
            assert("quarantine"@.len() != "ignore"@.len());
            assert("delete"@[0] != "ignore"@[0]);
        }
        if same_text(action, "quarantine") {
            Some(ThreatAction::Quarantine)
        } else if same_text(action, "delete") {
            Some(ThreatAction::Delete)
        } else if same_text(action, "ignore") {
            Some(ThreatAction::Ignore)
        } else {
            None
        }
    }

    /// The action as recorded on the threat once taken.
    pub fn taken(&self) -> (r: &'static str)
        ensures
            *self == ThreatAction::Quarantine ==> r@ == "quarantined"@,
            *self == ThreatAction::Delete ==> r@ == "deleted"@,
            *self == ThreatAction::Ignore ==> r@ == "ignored"@,
    {
        match self {
            ThreatAction::Quarantine => "quarantined",
            ThreatAction::Delete => "deleted",
            ThreatAction::Ignore => "ignored",
        }
    }
}

/// A threat as the history store keeps it. Times are seconds since the
/// Unix epoch.
#[derive(Debug, Clone)]
pub struct ThreatRecord {
    pub id: i64,
    pub scan_id: String,
    pub file_path: String,
    pub virus_name: String,
    pub action_taken: Option<String>,
    pub action_time: Option<i64>,
    pub original_location: Option<String>,
    pub file_hash: Option<String>,
}

/// A threat as the threat endpoints show it.
#[derive(Debug, Clone)]
pub struct ThreatItem {
    pub id: i64,
    pub scan_id: String,
    pub file_path: String,
    pub virus_name: String,
    /// When the threat was handled, or the time of the query if it was not.
    pub detected_time: i64,
    pub action_taken: Option<String>,
    pub quarantine_uuid: Option<String>,
    pub action_time: Option<i64>,
}

/// The listing entry of a stored threat at time `now`.
pub fn listed_threat(t: ThreatRecord, now: i64) -> (r: ThreatItem)
    ensures
        r.id == t.id,
        r.scan_id == t.scan_id,
        r.file_path == t.file_path,
        r.virus_name == t.virus_name,
        r.detected_time == (match t.action_time { Some(a) => a, None => now }),
        r.action_taken == t.action_taken,
        r.quarantine_uuid == t.original_location,
        r.action_time == t.action_time,
{
    let detected_time = match t.action_time {
        Some(a) => a,
        None => now,
    };
    ThreatItem {
        id: t.id,
        scan_id: t.scan_id,
        file_path: t.file_path,
        virus_name: t.virus_name,
        detected_time,
        action_taken: t.action_taken,
        quarantine_uuid: t.original_location,
        action_time: t.action_time,
    }
}

/// The threat as shown after `action` was taken on it at time `now`; a
/// quarantine names the vault entry that holds the file.
pub fn handled_threat(t: ThreatRecord, action: ThreatAction, quarantine_uuid: Option<String>, now: i64) -> (r: ThreatItem)
    ensures
        r.id == t.id,
        r.scan_id == t.scan_id,
        r.file_path == t.file_path,
        r.virus_name == t.virus_name,
        r.detected_time == (match t.action_time { Some(a) => a, None => now }),
        r.action_taken matches Some(a) && (action == ThreatAction::Quarantine ==> a@ == "quarantined"@)
            && (action == ThreatAction::Delete ==> a@ == "deleted"@)
            && (action == ThreatAction::Ignore ==> a@ == "ignored"@),
        action == ThreatAction::Quarantine ==> r.quarantine_uuid == quarantine_uuid,
        action != ThreatAction::Quarantine ==> r.quarantine_uuid is None,
        r.action_time == Some(now),
{
    let detected_time = match t.action_time {
        Some(a) => a,
        None => now,
    };
    let uuid = match action {
        ThreatAction::Quarantine => quarantine_uuid,
        _ => None,
    };
    ThreatItem {
        id: t.id,
        scan_id: t.scan_id,
        file_path: t.file_path,
        virus_name: t.virus_name,
        detected_time,
        action_taken: Some(action.taken().to_owned()),
        quarantine_uuid: uuid,
        action_time: Some(now),
    }
}

/// A scan as the history store keeps it. Times are seconds since the Unix
/// epoch.
#[derive(Debug, Clone)]
pub struct ScanRecord {
    pub id: i64,
    pub scan_id: String,
    pub scan_type: String,
    pub paths: String,
    pub status: String,
    pub start_time: i64,
    pub end_time: Option<i64>,
    pub total_files: i32,
    pub scanned_files: i32,
    pub threats_found: i32,
    pub current_file: Option<String>,
    pub error_message: Option<String>,
}

/// What the scan status endpoint reports; the host turns the counts into
/// its percentage.
#[derive(Debug, Clone)]
pub struct ScanStatusView {
    pub scan_id: Option<String>,
    pub status: String,
    /// Whether progress figures are shown (while scanning, or once completed).
    pub show_progress: bool,
    pub scanned: u64,
    pub estimated_total: u64,
    pub current_file: String,
    pub threats: Option<u32>,
    pub start_time: Option<i64>,
    pub elapsed_seconds: Option<u64>,
}

/// Seconds from `start` to `now`, none when `now` is earlier.
pub open spec fn elapsed(start: int, now: int) -> int {
    if now - start > 0 { now - start } else { 0 }
}

fn elapsed_since(start: i64, now: i64) -> (r: u64)
    ensures
        r as int == elapsed(start as int, now as int),
{
    let d: i128 = (now as i128) - (start as i128);
    if d > 0 { d as u64 } else { 0 }
}

fn text_or_empty(t: &Option<String>) -> (r: String)
    ensures
        t matches Some(s) ==> r == s,
        t is None ==> r@.len() == 0,
{
    match t {
        Some(s) => s.clone(),
        None => String::new(),
    }
}

/// Status of an active scan from its live snapshot at time `now`.
pub fn status_from_snapshot(a: &ActiveScan, now: i64) -> (r: ScanStatusView)
    ensures
        r.scan_id == Some(a.scan_id),
        r.status == a.status,
        r.show_progress == (a.status@ == "scanning"@ || a.status@ == "completed"@),
        r.scanned == a.scanned_files,
        r.estimated_total == a.total_files,
        a.current_file matches Some(f) ==> r.current_file == f,
        r.threats == Some(a.threats_found),
        r.start_time == Some(a.created_at),
        r.elapsed_seconds == Some(elapsed(a.created_at as int, now as int) as u64),
{
    proof {
        reveal_strlit("scanning");
        reveal_strlit("completed");
    }
    let show = same_text(a.status.as_str(), "scanning") || same_text(a.status.as_str(), "completed");
    ScanStatusView {
        scan_id: Some(a.scan_id.clone()),
        status: a.status.clone(),
        show_progress: show,
        scanned: a.scanned_files as u64,
        estimated_total: a.total_files as u64,
        current_file: text_or_empty(&a.current_file),
        threats: Some(a.threats_found),
        start_time: Some(a.created_at),
        elapsed_seconds: Some(elapsed_since(a.created_at, now)),
    }
}

/// Status from the latest history record when no scan is active; negative
/// counts read as zero.
pub fn status_from_record(rec: &ScanRecord, now: i64) -> (r: ScanStatusView)
    ensures
        r.scan_id == Some(rec.scan_id),
        r.status == rec.status,
        r.show_progress == (rec.status@ == "scanning"@ || rec.status@ == "completed"@),
        r.scanned as int == (if rec.scanned_files > 0 { rec.scanned_files as int } else { 0 }),
        r.estimated_total as int == (if rec.total_files > 0 { rec.total_files as int } else { 0 }),
        r.threats == Some((if rec.threats_found > 0 { rec.threats_found as int } else { 0 }) as u32),
        r.start_time == Some(rec.start_time),
        r.elapsed_seconds == Some(elapsed(rec.start_time as int, now as int) as u64),
{
    proof {
        reveal_strlit("scanning");
        reveal_strlit("completed");
    }
    let show = same_text(rec.status.as_str(), "scanning") || same_text(rec.status.as_str(), "completed");
    ScanStatusView {
        scan_id: Some(rec.scan_id.clone()),
        status: rec.status.clone(),
        show_progress: show,
        scanned: if rec.scanned_files > 0 { rec.scanned_files as u64 } else { 0 },
        estimated_total: if rec.total_files > 0 { rec.total_files as u64 } else { 0 },
        current_file: text_or_empty(&rec.current_file),
        threats: Some(if rec.threats_found > 0 { rec.threats_found as u32 } else { 0 }),
        start_time: Some(rec.start_time),
        elapsed_seconds: Some(elapsed_since(rec.start_time, now)),
    }
}

/// Status when no scan is known.
pub fn idle_status() -> (r: ScanStatusView)
    ensures
        r.scan_id is None,
        r.status@ == "idle"@,
        !r.show_progress,
        r.threats is None,
        r.start_time is None,
        r.elapsed_seconds is None,
{
    ScanStatusView {
        scan_id: None,
        status: String::from_str("idle"),
        show_progress: false,
        scanned: 0,
        estimated_total: 0,
        current_file: String::new(),
        threats: None,
        start_time: None,
        elapsed_seconds: None,
    }
}

/// Versions of the three signature databases, where known.
#[derive(Debug, Clone, PartialEq, Eq)]
pub struct VirusVersion {
    pub daily: Option<String>,
    pub main: Option<String>,
    pub bytecode: Option<String>,
}

} // verus!
