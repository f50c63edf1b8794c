use vstd::prelude::*;
use crate::mounts::{split_tokens, tokens, views};
use crate::text::{trim_of, trim_text};

verus! {

/// Settings of the application, as stored in its settings file.
#[derive(Debug, Clone)]
pub struct AppConfig {
    pub scan: ScanConfig,
    pub threat: ThreatConfig,
    pub update: UpdateConfig,
    pub history: HistoryConfig,
}

impl Default for AppConfig {
    fn default() -> (r: Self)
        ensures
            r.scan.default_scan_type@ == "full"@,
            r.scan.exclude_paths@.len() == 4,
            r.scan.max_file_size_mb == 100,
            r.scan.scan_archives,
            r.threat.action@ == "quarantine"@,
            !r.threat.auto_action,
            r.update.frequency@ == "daily"@,
            r.update.auto_check,
            r.history.retention_days == 90,
            r.history.max_records == 1000,
    {
        AppConfig {
            scan: ScanConfig::default(),
            threat: ThreatConfig::default(),
            update: UpdateConfig::default(),
            history: HistoryConfig::default(),
        }
    }
}

/// Scan settings.
#[derive(Debug, Clone)]
pub struct ScanConfig {
    pub default_scan_type: String,
    pub exclude_paths: Vec<String>,
    pub max_file_size_mb: u32,
    pub scan_archives: bool,
}

impl Default for ScanConfig {
    /// Full scans, system pseudo-filesystems excluded, files up to 100 MB,
    /// archives scanned.
    fn default() -> (r: Self)
        ensures
            r.default_scan_type@ == "full"@,
            r.exclude_paths@.len() == 4,
            r.exclude_paths@[0]@ == "/proc"@,
            r.exclude_paths@[1]@ == "/sys"@,
            r.exclude_paths@[2]@ == "/dev"@,
            r.exclude_paths@[3]@ == "/run"@,
            r.max_file_size_mb == 100,
            r.scan_archives,
    {
        let mut exclude_paths: Vec<String> = Vec::new();
        exclude_paths.push(String::from_str("/proc"));
        exclude_paths.push(String::from_str("/sys"));
        exclude_paths.push(String::from_str("/dev"));
        exclude_paths.push(String::from_str("/run"));
        ScanConfig {
            default_scan_type: String::from_str("full"),
            exclude_paths,
            max_file_size_mb: 100,
            scan_archives: true,
        }
    }
}

/// What to do with detected threats: "quarantine", "delete" or "none".
#[derive(Debug, Clone)]
pub struct ThreatConfig {
    pub action: String,
    pub auto_action: bool,
}

impl Default for ThreatConfig {
    fn default() -> (r: Self)
        ensures
            r.action@ == "quarantine"@,
            !r.auto_action,
    {
        ThreatConfig { action: String::from_str("quarantine"), auto_action: false }
    }
}

/// Signature update schedule: frequency "daily", "weekly" or "manual", at
/// "HH:MM" in the given time zone.
#[derive(Debug, Clone)]
pub struct UpdateConfig {
    pub frequency: String,
    pub schedule_time: String,
    pub timezone: String,
    pub auto_check: bool,
}

impl Default for UpdateConfig {
    fn default() -> (r: Self)
        ensures
            r.frequency@ == "daily"@,
            r.schedule_time@ == "03:30"@,
            r.timezone@ == "Asia/Shanghai"@,
            r.auto_check,
    {
        UpdateConfig {
            frequency: String::from_str("daily"),
            schedule_time: String::from_str("03:30"),
            timezone: String::from_str("Asia/Shanghai"),
            auto_check: true,
        }
    }
}

/// How long scan history is kept.
#[derive(Debug, Clone, Copy, PartialEq, Eq, Structural)]
pub struct HistoryConfig {
    pub retention_days: u32,
    pub max_records: u32,
}

impl Default for HistoryConfig {
    fn default() -> (r: Self)
        ensures
            r.retention_days == 90,
            r.max_records == 1000,
    {
        HistoryConfig { retention_days: 90, max_records: 1000 }
    }
}

/// Settings as the configuration endpoint returns them.
#[derive(Debug, Clone)]
pub struct ConfigResponse {
    pub scan: ScanConfig,
    pub threat: ThreatConfig,
    pub update: UpdateConfig,
    pub history: HistoryConfig,
}

/// The default settings in the configuration endpoint's form.
pub fn get_default_config() -> (r: ConfigResponse)
    ensures
        r.scan.default_scan_type@ == "full"@,
        r.scan.exclude_paths@.len() == 4,
        r.threat.action@ == "quarantine"@,
        r.update.frequency@ == "daily"@,
        r.history.retention_days == 90,
        r.history.max_records == 1000,
{
    ConfigResponse {
        scan: ScanConfig::default(),
        threat: ThreatConfig::default(),
        update: UpdateConfig::default(),
        history: HistoryConfig::default(),
    }
}

/// Settings of the native engine.
#[derive(Debug, Clone)]
pub struct ClamAVConfig {
    /// Signature database directory.
    pub database_dir: String,
    /// Certificate directory used to verify signature files.
    pub certs_dir: Option<String>,
    /// Path of the native library.
    pub lib_path: Option<String>,
    /// Most scan threads.
    pub max_threads: u32,
    /// Scan time limit in seconds.
    pub scan_timeout: u32,
    /// Whether heuristic detection is on.
    pub heuristic_scan: bool,
}

impl Default for ClamAVConfig {
    fn default() -> (r: Self)
        ensures
            r.database_dir@ == "/var/lib/clamav"@,
            r.certs_dir is None,
            r.lib_path is None,
            r.max_threads == 4,
            r.scan_timeout == 300,
            r.heuristic_scan,
    {
        ClamAVConfig {
            database_dir: String::from_str("/var/lib/clamav"),
            certs_dir: None,
            lib_path: None,
            max_threads: 4,
            scan_timeout: 300,
            heuristic_scan: true,
        }
    }
}


/// Exclusion paths as a client may send them: a list, or one text with a
/// path per line.
#[derive(Debug, Clone)]
pub enum PathsValue {
    List(Vec<String>),
    Lines(String),
}

/// Changes a client asks for. The flat fields are the settings page's
/// form; the grouped ones follow the stored layout and win when both are
/// given. Absent fields leave the setting as it is.
#[derive(Debug, Clone, Default)]
pub struct SettingsPatch {
    pub scan_paths: Option<PathsValue>,
    pub auto_update: Option<bool>,
    pub quarantine_enabled: Option<bool>,
    pub threat_action: Option<String>,
    pub scan_default_scan_type: Option<String>,
    pub scan_exclude_paths: Option<Vec<String>>,
    pub scan_max_file_size_mb: Option<u64>,
    pub scan_archives: Option<bool>,
    pub threat_action_nested: Option<String>,
    pub threat_auto_action: Option<bool>,
    pub update_frequency: Option<String>,
    pub update_schedule_time: Option<String>,
    pub update_timezone: Option<String>,
    pub update_auto_check: Option<bool>,
    pub history_retention_days: Option<u64>,
    pub history_max_records: Option<u64>,
}

/// The non-blank lines of a text, each trimmed.
pub open spec fn line_entries(s: Seq<char>) -> Seq<Seq<char>> {
    tokens(s, true).map_values(|l: Seq<char>| trim_of(l)).filter(|l: Seq<char>| l.len() > 0)
}

/// The trimmed non-blank lines of `s`.
pub fn lines_to_paths(s: &str) -> (r: Vec<String>)
    ensures
        views(r@) == line_entries(s@),
{
    let lines = split_tokens(s, true);
    let ghost mapped = views(lines@).map_values(|l: Seq<char>| trim_of(l));
    let ghost keep = |l: Seq<char>| l.len() > 0;
    let mut out: Vec<String> = Vec::new();
    let mut i: usize = 0;
    while i < lines.len()
        invariant
            0 <= i <= lines@.len(),
            views(lines@) == tokens(s@, true),
            mapped == views(lines@).map_values(|l: Seq<char>| trim_of(l)),
            keep == (|l: Seq<char>| l.len() > 0),
            views(out@) == mapped.subrange(0, i as int).filter(keep),
        decreases lines@.len() - i,
    {
        let t = trim_text(lines[i].as_str());
        let ghost before = views(out@);
        let ghost pre = mapped.subrange(0, i as int + 1);
        assert(pre.drop_last() =~= mapped.subrange(0, i as int));
        assert(pre.last() == t@);
        if t.unicode_len() > 0 {
            out.push(t);
            assert(views(out@) =~= before.push(pre.last()));
        } else {
            assert(views(out@) =~= before);
        }
        assert(views(out@) == pre.filter(keep)) by {
            reveal(Seq::filter);
        }
        i += 1;
    }
    assert(mapped.subrange(0, lines@.len() as int) =~= mapped);
    out
}

/// A `u64` setting stored in 32 bits keeps its low 32 bits.
pub open spec fn low32(v: u64) -> u32 {
    (v % 0x1_0000_0000) as u32
}

fn to_u32(v: u64) -> (r: u32)
    ensures
        r == low32(v),
{
    (v % 0x1_0000_0000) as u32
}

/// A setting replaced when a new value is given.
pub open spec fn given<T>(v: Option<T>, current: T) -> T {
    match v {
        Some(x) => x,
        None => current,
    }
}

/// A 32-bit setting replaced by the low bits of a new value when one is given.
pub open spec fn given_u32(v: Option<u64>, current: u32) -> u32 {
    match v {
        Some(x) => low32(x),
        None => current,
    }
}

impl ScanConfig {
    /// Applies the scan changes: the flat path form first, then the grouped fields.
    pub fn apply_patch(
        &mut self,
        paths: Option<PathsValue>,
        default_scan_type: Option<String>,
        exclude_paths: Option<Vec<String>>,
        max_file_size_mb: Option<u64>,
        scan_archives: Option<bool>,
    )
        ensures
            final(self).default_scan_type == given(default_scan_type, old(self).default_scan_type),
            exclude_paths matches Some(v) ==> final(self).exclude_paths == v,
            exclude_paths is None ==> (match paths {
                Some(PathsValue::List(v)) => final(self).exclude_paths == v,
                Some(PathsValue::Lines(t)) => views(final(self).exclude_paths@) == line_entries(t@),
                None => final(self).exclude_paths == old(self).exclude_paths,
            }),
            final(self).max_file_size_mb == given_u32(max_file_size_mb, old(self).max_file_size_mb),
            final(self).scan_archives == given(scan_archives, old(self).scan_archives),
    {
        match paths {
            Some(PathsValue::List(v)) => {
                self.exclude_paths = v;
            },
            Some(PathsValue::Lines(t)) => {
                self.exclude_paths = lines_to_paths(t.as_str());
            },
            None => {},
        }
        if let Some(v) = default_scan_type {
            self.default_scan_type = v;
        }
        if let Some(v) = exclude_paths {
            self.exclude_paths = v;
        }
        if let Some(v) = max_file_size_mb {
            self.max_file_size_mb = to_u32(v);
        }
        if let Some(v) = scan_archives {
            self.scan_archives = v;
        }
    }
}

impl ThreatConfig {
    /// Applies the threat changes: flat fields first, then grouped ones.
    pub fn apply_patch(&mut self, flat_action: Option<String>, flat_auto: Option<bool>, action: Option<String>, auto_action: Option<bool>)
        ensures
            final(self).action == given(action, given(flat_action, old(self).action)),
            final(self).auto_action == given(auto_action, given(flat_auto, old(self).auto_action)),
    {
        if let Some(v) = flat_auto {
            self.auto_action = v;
        }
        if let Some(v) = flat_action {
            self.action = v;
        }
        if let Some(v) = action {
            self.action = v;
        }
        if let Some(v) = auto_action {
            self.auto_action = v;
        }
    }
}

impl UpdateConfig {
    /// Applies the update-schedule changes: flat field first, then grouped ones.
    pub fn apply_patch(
        &mut self,
        flat_auto: Option<bool>,
        frequency: Option<String>,
        schedule_time: Option<String>,
        timezone: Option<String>,
        auto_check: Option<bool>,
    )
        ensures
            final(self).frequency == given(frequency, old(self).frequency),
            final(self).schedule_time == given(schedule_time, old(self).schedule_time),
            final(self).timezone == given(timezone, old(self).timezone),
            final(self).auto_check == given(auto_check, given(flat_auto, old(self).auto_check)),
    {
        if let Some(v) = flat_auto {
            self.auto_check = v;
        }
        if let Some(v) = frequency {
            self.frequency = v;
        }
        if let Some(v) = schedule_time {
            self.schedule_time = v;
        }
        if let Some(v) = timezone {
            self.timezone = v;
        }
        if let Some(v) = auto_check {
            self.auto_check = v;
        }
    }
}

impl HistoryConfig {
    /// Applies the retention changes.
    pub fn apply_patch(&mut self, retention_days: Option<u64>, max_records: Option<u64>)
        ensures
            final(self).retention_days == given_u32(retention_days, old(self).retention_days),
            final(self).max_records == given_u32(max_records, old(self).max_records),
    {
        if let Some(v) = retention_days {
            self.retention_days = to_u32(v);
        }
        if let Some(v) = max_records {
            self.max_records = to_u32(v);
        }
    }
}

impl AppConfig {
    /// Applies the changes a client asked for, group by group, as each
    /// group's `apply_patch` says.
    pub fn apply(&mut self, patch: SettingsPatch)
        ensures
            final(self).scan.default_scan_type == given(patch.scan_default_scan_type, old(self).scan.default_scan_type),
            patch.scan_exclude_paths matches Some(v) ==> final(self).scan.exclude_paths == v,
            patch.scan_exclude_paths is None ==> (match patch.scan_paths {
                Some(PathsValue::List(v)) => final(self).scan.exclude_paths == v,
                Some(PathsValue::Lines(t)) => views(final(self).scan.exclude_paths@) == line_entries(t@),
                None => final(self).scan.exclude_paths == old(self).scan.exclude_paths,
            }),
            final(self).scan.max_file_size_mb == given_u32(patch.scan_max_file_size_mb, old(self).scan.max_file_size_mb),
            final(self).scan.scan_archives == given(patch.scan_archives, old(self).scan.scan_archives),
            final(self).threat.action == given(patch.threat_action_nested, given(patch.threat_action, old(self).threat.action)),
            final(self).threat.auto_action == given(patch.threat_auto_action, given(patch.quarantine_enabled, old(self).threat.auto_action)),
            final(self).update.frequency == given(patch.update_frequency, old(self).update.frequency),
            final(self).update.schedule_time == given(patch.update_schedule_time, old(self).update.schedule_time),
            final(self).update.timezone == given(patch.update_timezone, old(self).update.timezone),
            final(self).update.auto_check == given(patch.update_auto_check, given(patch.auto_update, old(self).update.auto_check)),
            final(self).history.retention_days == given_u32(patch.history_retention_days, old(self).history.retention_days),
            final(self).history.max_records == given_u32(patch.history_max_records, old(self).history.max_records),
    {
        let SettingsPatch {
            scan_paths,
            auto_update,
            quarantine_enabled,
            threat_action,
            scan_default_scan_type,
            scan_exclude_paths,
            scan_max_file_size_mb,
            scan_archives,
            threat_action_nested,
            threat_auto_action,
            update_frequency,
            update_schedule_time,
            update_timezone,
            update_auto_check,
            history_retention_days,
            history_max_records,
        } = patch;
        self.scan.apply_patch(scan_paths, scan_default_scan_type, scan_exclude_paths, scan_max_file_size_mb, scan_archives);
        self.threat.apply_patch(threat_action, quarantine_enabled, threat_action_nested, threat_auto_action);
        self.update.apply_patch(auto_update, update_frequency, update_schedule_time, update_timezone, update_auto_check);
        self.history.apply_patch(history_retention_days, history_max_records);
    }
}

} // verus!
