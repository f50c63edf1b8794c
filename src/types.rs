use vstd::prelude::*;

verus! {

/// Name of a signature that matched a file.
#[derive(Debug, Clone, PartialEq, Eq)]
pub struct VirusName(pub String);

impl VirusName {
    /// The name as text.
    pub fn to_string(&self) -> (r: String)
        ensures
            r@ == self.0@,
    {
        self.0.clone()
    }
}

/// Path of a scanned file.
#[derive(Debug, Clone, PartialEq, Eq)]
pub struct FilePath(pub String);

impl FilePath {
    /// An equal copy of the path.
    pub fn duplicate(&self) -> (r: Self)
        ensures
            r == *self,
    {
        FilePath(self.0.clone())
    }

    /// The path as text.
    pub fn to_string(&self) -> (r: String)
        ensures
            r@ == self.0@,
    {
        self.0.clone()
    }
}

/// Completion percentage, 0 to 100.
#[derive(Debug, Clone, Copy, PartialEq, Eq, Structural)]
pub struct ProgressPercent(pub u8);

/// Number of files scanned so far.
#[derive(Debug, Clone, Copy, PartialEq, Eq, Structural)]
pub struct ScannedFiles(pub u32);

/// Best current estimate of the number of files to scan.
#[derive(Debug, Clone, Copy, PartialEq, Eq, Structural)]
pub struct TotalFiles(pub u32);

/// Number of threats found so far.
#[derive(Debug, Clone, Copy, PartialEq, Eq, Structural)]
pub struct ThreatsFound(pub u32);

/// Number of files found by the discovery stage so far.
#[derive(Debug, Clone, Copy, PartialEq, Eq, Structural)]
pub struct DiscoveredFiles(pub u32);

/// Smoothed scan rate in thousandths of a file per second.
#[derive(Debug, Clone, Copy, PartialEq, Eq, Structural)]
pub struct ScanRate(pub u64);

/// Status of a scan as reported by the worker.
#[derive(Debug, Clone, PartialEq, Eq)]
pub enum ScanStatus {
    Idle,
    Scanning,
    Paused,
    Stopping,
    Completed,
    Failed(String),
}

pub open spec fn status_label(s: ScanStatus) -> Seq<char> {
    match s {
        ScanStatus::Idle => "空闲"@,
        ScanStatus::Scanning => "扫描中"@,
        ScanStatus::Paused => "已暂停"@,
        ScanStatus::Stopping => "停止中"@,
        ScanStatus::Completed => "已完成"@,
        ScanStatus::Failed(m) => "失败: "@ + m@,
    }
}

impl ScanStatus {
    /// Human-readable label of the status.
    pub fn to_string(&self) -> (r: String)
        ensures
            r@ == status_label(*self),
    {
        match self {
            ScanStatus::Idle => String::from_str("空闲"),
            ScanStatus::Scanning => String::from_str("扫描中"),
            ScanStatus::Paused => String::from_str("已暂停"),
            ScanStatus::Stopping => String::from_str("停止中"),
            ScanStatus::Completed => String::from_str("已完成"),
            ScanStatus::Failed(m) => {
                let mut s = String::from_str("失败: ");
                s.append(m.as_str());
                s
            },
        }
    }
}

/// One progress report of a running task.
#[derive(Debug, Clone)]
pub struct ScanProgress {
    pub percent: ProgressPercent,
    pub scanned_files: ScannedFiles,
    pub total_files: TotalFiles,
    pub threats_found: ThreatsFound,
    pub current_file: Option<FilePath>,
    /// Files found so far by the discovery stage.
    pub discovered_files: DiscoveredFiles,
    /// Smoothed scan rate, when one is known.
    pub scan_rate: Option<ScanRate>,
}

impl ScanProgress {
    /// An equal copy of the report.
    pub fn duplicate(&self) -> (r: Self)
        ensures
            r == *self,
    {
        let current_file = match &self.current_file {
            Some(f) => Some(f.duplicate()),
            None => None,
        };
        ScanProgress {
            percent: self.percent,
            scanned_files: self.scanned_files,
            total_files: self.total_files,
            threats_found: self.threats_found,
            current_file,
            discovered_files: self.discovered_files,
            scan_rate: self.scan_rate,
        }
    }

    /// A report with every counter at zero.
    pub fn new() -> (r: Self)
        ensures
            r.percent.0 == 0,
            r.scanned_files.0 == 0,
            r.total_files.0 == 0,
            r.threats_found.0 == 0,
            r.current_file is None,
            r.discovered_files.0 == 0,
            r.scan_rate is None,
    {
        ScanProgress {
            percent: ProgressPercent(0),
            scanned_files: ScannedFiles(0),
            total_files: TotalFiles(0),
            threats_found: ThreatsFound(0),
            current_file: None,
            discovered_files: DiscoveredFiles(0),
            scan_rate: None,
        }
    }
}

/// Final result of a task.
#[derive(Debug, Clone)]
pub struct ScanOutcome {
    pub total_files: u32,
    pub scanned_files: u32,
    pub threats: Vec<(FilePath, VirusName)>,
    pub status: ScanStatus,
    pub error_message: Option<String>,
}

impl ScanOutcome {
    /// A completed task.
    pub fn success(total_files: u32, scanned_files: u32, threats: Vec<(FilePath, VirusName)>) -> (r: Self)
        ensures
            r.total_files == total_files,
            r.scanned_files == scanned_files,
            r.threats == threats,
            r.status == ScanStatus::Completed,
            r.error_message is None,
    {
        ScanOutcome {
            total_files,
            scanned_files,
            threats,
            status: ScanStatus::Completed,
            error_message: None,
        }
    }

    /// A failed task; its counters are zero.
    pub fn failed(message: String) -> (r: Self)
        ensures
            r.total_files == 0,
            r.scanned_files == 0,
            r.threats@.len() == 0,
            r.status == ScanStatus::Failed(message),
            r.error_message == Some(message),
    {
        ScanOutcome {
            total_files: 0,
            scanned_files: 0,
            threats: Vec::new(),
            status: ScanStatus::Failed(message.clone()),
            error_message: Some(message),
        }
    }
}

} // verus!
