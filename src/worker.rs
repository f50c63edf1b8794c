use vstd::prelude::*;
use std::collections::VecDeque;
use crate::binding::{ClamAVError, ScanResult, error_message, reported_virus_name};
use crate::types::{
    DiscoveredFiles, FilePath, ProgressPercent, ScanOutcome, ScanProgress, ScanRate, ScanStatus,
    ScannedFiles, ThreatsFound, TotalFiles, VirusName,
};

verus! {

/// Least time between two progress reports of a directory scan, in milliseconds.
pub const PROGRESS_INTERVAL_MS: u64 = 100;

/// Discovery polls the cancel flag once every this many directory entries.
pub const ENTRY_CHECK_INTERVAL: u32 = 1000;

/// Largest smoothed rate a run can hold: every countable file in one millisecond.
pub const MAX_RATE: u64 = 4_294_967_295_000_000;

/// Percentage of discovered files that are scanned, capped at 100; 0 while
/// nothing is discovered.
pub open spec fn percent_of(scanned: int, discovered: int) -> int {
    if discovered > 0 {
        if scanned * 100 / discovered > 100 { 100 } else { scanned * 100 / discovered }
    } else {
        0
    }
}

/// Instant rate in thousandths of a file per second: `scanned` files in
/// `elapsed_ms` milliseconds.
pub open spec fn instant_rate(scanned: int, elapsed_ms: int) -> int {
    scanned * 1_000_000 / elapsed_ms
}

/// Exponential moving average with weight 0.3 on the new sample, seeded with
/// the first sample.
pub open spec fn ema_next(ema: int, sample: int) -> int {
    if ema == 0 { sample } else { (3 * sample + 7 * ema) / 10 }
}

/// Percentage of scanned files among discovered ones.
pub fn scan_percent(scanned: u32, discovered: u32) -> (r: u8)
    ensures
        r as int == percent_of(scanned as int, discovered as int),
{
    if discovered == 0 {
        return 0;
    }
    let p: u64 = (scanned as u64) * 100 / (discovered as u64);
    if p > 100 { 100 } else { p as u8 }
}

/// Kind of a directory entry met during discovery.
#[derive(Debug, Clone, Copy, PartialEq, Eq, Structural)]
pub enum EntryKind {
    Directory,
    File,
    Other,
}

/// What the scan stage does next.
#[derive(Debug, Clone, PartialEq, Eq)]
pub enum NextFile {
    /// Scan this file, then report its result.
    Scan(String),
    /// Nothing queued yet: discovery is still running.
    Wait,
    /// The run is over: everything was scanned, or it was cancelled.
    Finished,
}

/// State of one directory scan: the discovery stage's stack of directories,
/// the stream of discovered files, and the scan stage's counters, threats
/// and smoothed rate. The host reads directories and runs the engine; this
/// type decides what is counted and what is reported.
#[derive(Debug)]
pub struct ScanRun {
    dirs: Vec<String>,
    files: VecDeque<String>,
    in_flight: Option<String>,
    discovered: u32,
    scanned: u32,
    threats: Vec<(FilePath, VirusName)>,
    discovery_complete: bool,
    cancelled: bool,
    ema_rate: u64,
    first_scan_ms: Option<u64>,
    last_emit_ms: u64,
    entry_phase: u32,
}

/// The report carries the run's counters.
pub open spec fn reports(p: ScanProgress, discovered: int, scanned: int, threats: int) -> bool {
    &&& p.scanned_files.0 == scanned
    &&& p.discovered_files.0 == discovered
    &&& p.total_files.0 == discovered
    &&& p.threats_found.0 == threats
}

impl ScanRun {
    pub closed spec fn discovered(&self) -> int {
        self.discovered as int
    }

    pub closed spec fn scanned(&self) -> int {
        self.scanned as int
    }

    pub closed spec fn threat_count(&self) -> int {
        self.threats@.len() as int
    }

    /// Threats found so far: each file with the signature that matched it.
    pub closed spec fn threat_list(&self) -> Seq<(FilePath, VirusName)> {
        self.threats@
    }

    pub closed spec fn is_cancelled(&self) -> bool {
        self.cancelled
    }

    pub closed spec fn discovery_done(&self) -> bool {
        self.discovery_complete
    }

    /// Files discovered and not yet handed to the scan stage.
    pub closed spec fn queued(&self) -> Seq<String> {
        self.files@
    }

    /// The file handed to the scan stage whose result is awaited.
    pub closed spec fn awaiting(&self) -> Option<String> {
        self.in_flight
    }

    /// Directories still to read.
    pub closed spec fn stack(&self) -> Seq<String> {
        self.dirs@
    }

    pub closed spec fn rate(&self) -> int {
        self.ema_rate as int
    }

    /// Time of the last report, in milliseconds.
    pub closed spec fn last_report(&self) -> u64 {
        self.last_emit_ms
    }

    /// Directory entries read since the last cancel check, modulo the check
    /// interval.
    pub closed spec fn entry_phase(&self) -> int {
        self.entry_phase as int
    }

    /// Time the scan stage took its first file, in milliseconds.
    pub closed spec fn first_taken(&self) -> Option<u64> {
        self.first_scan_ms
    }

    /// Each scanned or queued file was discovered; each threat was scanned.
    pub closed spec fn wf(&self) -> bool {
        &&& self.scanned + self.files@.len() + (if self.in_flight is Some { 1int } else { 0int }) <= self.discovered
        &&& self.threats@.len() <= self.scanned
        &&& self.ema_rate <= MAX_RATE
        &&& self.entry_phase < ENTRY_CHECK_INTERVAL
    }

    /// No counter went down from `self` to `later`.
    pub open spec fn advances_to(&self, later: &ScanRun) -> bool {
        &&& self.discovered() <= later.discovered()
        &&& self.scanned() <= later.scanned()
        &&& self.threat_count() <= later.threat_count()
    }

    /// A run of the directory `root`, with its first report: nothing found,
    /// nothing scanned, the root as the current file.
    pub fn start(root: &str, now_ms: u64) -> (r: (ScanRun, ScanProgress))
        ensures
            r.0.wf(),
            r.0.discovered() == 0,
            r.0.scanned() == 0,
            r.0.threat_count() == 0,
            r.0.threat_list().len() == 0,
            !r.0.is_cancelled(),
            !r.0.discovery_done(),
            r.0.queued().len() == 0,
            r.0.awaiting() is None,
            r.0.stack().len() == 1 && r.0.stack()[0]@ == root@,
            r.0.rate() == 0,
            r.0.first_taken() is None,
            r.0.last_report() == now_ms,
            reports(r.1, 0, 0, 0),
            r.1.percent.0 == 0,
            r.1.current_file matches Some(f) && f.0@ == root@,
            r.1.scan_rate is None,
    {
        let mut dirs: Vec<String> = Vec::new();
        dirs.push(root.to_owned());
        let run = ScanRun {
            dirs,
            files: VecDeque::new(),
            in_flight: None,
            discovered: 0,
            scanned: 0,
            threats: Vec::new(),
            discovery_complete: false,
            cancelled: false,
            ema_rate: 0,
            first_scan_ms: None,
            last_emit_ms: now_ms,
            entry_phase: 0,
        };
        let first = ScanProgress {
            percent: ProgressPercent(0),
            scanned_files: ScannedFiles(0),
            total_files: TotalFiles(0),
            threats_found: ThreatsFound(0),
            current_file: Some(FilePath(root.to_owned())),
            discovered_files: DiscoveredFiles(0),
            scan_rate: None,
        };
        (run, first)
    }

    /// Discovery: the next directory to read, depth first. A raised cancel
    /// flag ends discovery and cancels the run.
    pub fn next_directory(&mut self, cancel: bool) -> (r: Option<String>)
        requires
            old(self).wf(),
        ensures
            final(self).last_report() == old(self).last_report(),
            final(self).threat_list() == old(self).threat_list(),
            final(self).rate() == old(self).rate(),
            final(self).first_taken() == old(self).first_taken(),
            final(self).wf(),
            old(self).advances_to(final(self)),
            final(self).discovered() == old(self).discovered(),
            final(self).scanned() == old(self).scanned(),
            final(self).queued() == old(self).queued(),
            final(self).awaiting() == old(self).awaiting(),
            final(self).discovery_done() == old(self).discovery_done(),
            cancel ==> r is None && final(self).is_cancelled(),
            !cancel ==> final(self).is_cancelled() == old(self).is_cancelled(),
            !cancel && old(self).stack().len() > 0 ==> r == Some(old(self).stack().last())
                && final(self).stack() == old(self).stack().drop_last(),
            !cancel && old(self).stack().len() == 0 ==> r is None,
    {
        if cancel {
            self.cancelled = true;
            return None;
        }
        self.dirs.pop()
    }

    /// Discovery: one entry of the directory being read. Every
    /// `ENTRY_CHECK_INTERVAL`-th entry polls the cancel flag; when it is
    /// raised there, the run is cancelled, the entry is dropped and the
    /// result is false (stop reading). Otherwise a subdirectory is stacked, a
    /// file is counted and queued for the scan stage, and the result is true.
    pub fn add_entry(&mut self, path: String, kind: EntryKind, cancel: bool) -> (r: bool)
        requires
            old(self).wf(),
        ensures
            final(self).threat_list() == old(self).threat_list(),
            final(self).rate() == old(self).rate(),
            final(self).first_taken() == old(self).first_taken(),
            final(self).last_report() == old(self).last_report(),
            final(self).wf(),
            old(self).advances_to(final(self)),
            final(self).scanned() == old(self).scanned(),
            final(self).awaiting() == old(self).awaiting(),
            final(self).discovery_done() == old(self).discovery_done(),
            final(self).entry_phase() == (old(self).entry_phase() + 1) % (ENTRY_CHECK_INTERVAL as int),
            r == !(cancel && (old(self).entry_phase() + 1) % (ENTRY_CHECK_INTERVAL as int) == 0),
            !r ==> final(self).is_cancelled() && final(self).stack() == old(self).stack()
                && final(self).queued() == old(self).queued()
                && final(self).discovered() == old(self).discovered(),
            r ==> final(self).is_cancelled() == old(self).is_cancelled(),
            r && kind == EntryKind::Directory ==> final(self).stack() == old(self).stack().push(path)
                && final(self).queued() == old(self).queued()
                && final(self).discovered() == old(self).discovered(),
            r && kind == EntryKind::File && old(self).discovered() < u32::MAX ==>
                final(self).queued() == old(self).queued().push(path)
                && final(self).discovered() == old(self).discovered() + 1
                && final(self).stack() == old(self).stack(),
            r && (kind == EntryKind::Other || (kind == EntryKind::File && old(self).discovered() == u32::MAX)) ==>
                final(self).queued() == old(self).queued()
                && final(self).discovered() == old(self).discovered()
                && final(self).stack() == old(self).stack(),
    {
        self.entry_phase = (self.entry_phase + 1) % ENTRY_CHECK_INTERVAL;
        if cancel && self.entry_phase == 0 {
            self.cancelled = true;
            return false;
        }
        match kind {
            EntryKind::Directory => {
                self.dirs.push(path);
            },
            EntryKind::File => {
                if self.discovered < u32::MAX {
                    self.discovered = self.discovered + 1;
                    self.files.push_back(path);
                }
            },
            EntryKind::Other => {},
        }
        true
    }

    /// Discovery has read every directory it will read.
    pub fn finish_discovery(&mut self)
        requires
            old(self).wf(),
        ensures
            final(self).last_report() == old(self).last_report(),
            final(self).threat_list() == old(self).threat_list(),
            final(self).rate() == old(self).rate(),
            final(self).first_taken() == old(self).first_taken(),
            final(self).wf(),
            old(self).advances_to(final(self)),
            final(self).discovery_done(),
            final(self).discovered() == old(self).discovered(),
            final(self).scanned() == old(self).scanned(),
            final(self).queued() == old(self).queued(),
            final(self).awaiting() == old(self).awaiting(),
            final(self).is_cancelled() == old(self).is_cancelled(),
    {
        self.discovery_complete = true;
    }

    /// Scan stage: takes the next queued file. A raised cancel flag cancels
    /// the run once a file is at hand; the run finishes when it is cancelled,
    /// or when the stream is drained and discovery is complete.
    pub fn next_file(&mut self, cancel: bool, now_ms: u64) -> (r: NextFile)
        requires
            old(self).wf(),
        ensures
            final(self).last_report() == old(self).last_report(),
            final(self).threat_list() == old(self).threat_list(),
            final(self).rate() == old(self).rate(),
            (old(self).first_taken() is Some || r != NextFile::Finished && !(r is Scan))
                ==> final(self).first_taken() == old(self).first_taken(),
            r is Scan && old(self).first_taken() is None ==> final(self).first_taken() == Some(now_ms),
            final(self).wf(),
            old(self).advances_to(final(self)),
            final(self).discovered() == old(self).discovered(),
            final(self).scanned() == old(self).scanned(),
            final(self).discovery_done() == old(self).discovery_done(),
            old(self).is_cancelled() ==> r == NextFile::Finished && final(self).is_cancelled(),
            !old(self).is_cancelled() && old(self).awaiting() is Some ==> r == NextFile::Wait
                && final(self).queued() == old(self).queued() && !final(self).is_cancelled(),
            !old(self).is_cancelled() && old(self).awaiting() is None && old(self).queued().len() > 0 ==>
                final(self).queued() == old(self).queued().drop_first()
                && (if cancel {
                    r == NextFile::Finished && final(self).is_cancelled() && final(self).awaiting() is None
                } else {
                    r == NextFile::Scan(old(self).queued()[0]) && !final(self).is_cancelled()
                        && final(self).awaiting() == Some(old(self).queued()[0])
                }),
            !old(self).is_cancelled() && old(self).awaiting() is None && old(self).queued().len() == 0 ==>
                final(self).queued() == old(self).queued() && !final(self).is_cancelled()
                && final(self).awaiting() is None
                && r == (if old(self).discovery_done() { NextFile::Finished } else { NextFile::Wait }),
    {
        if self.cancelled {
            return NextFile::Finished;
        }
        if self.in_flight.is_some() {
            return NextFile::Wait;
        }
        match self.files.pop_front() {
            Some(path) => {
                if self.first_scan_ms.is_none() {
                    self.first_scan_ms = Some(now_ms);
                }
                if cancel {
                    self.cancelled = true;
                    NextFile::Finished
                } else {
                    self.in_flight = Some(path.clone());
                    NextFile::Scan(path)
                }
            },
            None => {
                if self.discovery_complete {
                    NextFile::Finished
                } else {
                    NextFile::Wait
                }
            },
        }
    }
    /// Scan stage: the result for the file at hand. A clean or infected
    /// verdict counts the file as scanned (an infected one also records the
    /// threat) and updates the smoothed rate; a failed scan counts nothing.
    /// A report comes out when more than the report interval has passed
    /// since the last one.
    pub fn record_result(&mut self, result: &Result<ScanResult, ClamAVError>, now_ms: u64) -> (r: Option<ScanProgress>)
        requires
            old(self).wf(),
        ensures
            final(self).wf(),
            old(self).advances_to(final(self)),
            final(self).discovered() == old(self).discovered(),
            final(self).queued() == old(self).queued(),
            final(self).is_cancelled() == old(self).is_cancelled(),
            final(self).discovery_done() == old(self).discovery_done(),
            final(self).awaiting() is None,
            old(self).awaiting() is None || result is Err ==> r is None
                && final(self).scanned() == old(self).scanned()
                && final(self).threat_count() == old(self).threat_count()
                && final(self).rate() == old(self).rate(),
            old(self).awaiting() is None || result is Err ==> final(self).threat_list() == old(self).threat_list(),
            old(self).awaiting() is Some && result is Ok && !result->Ok_0.is_infected ==>
                final(self).threat_list() == old(self).threat_list(),
            old(self).awaiting() is Some && result is Ok && result->Ok_0.is_infected ==>
                final(self).threat_list().drop_last() == old(self).threat_list()
                && final(self).threat_list().last().0 == FilePath(result->Ok_0.filename)
                && final(self).threat_list().last().1.0@ == reported_virus_name(result->Ok_0.virus_name),
            old(self).awaiting() is Some && result is Ok ==> final(self).scanned() == old(self).scanned() + 1
                && final(self).threat_count() == old(self).threat_count()
                    + (if result->Ok_0.is_infected { 1int } else { 0int })
                && final(self).rate() == (if (old(self).first_taken() matches Some(f) && now_ms > f) {
                    ema_next(old(self).rate(), instant_rate(final(self).scanned(), now_ms - old(self).first_taken()->Some_0))
                } else {
                    old(self).rate()
                }),
            final(self).first_taken() == old(self).first_taken(),
            old(self).awaiting() is Some && result is Ok ==> (r is Some <==> (now_ms >= old(self).last_report()
                && now_ms - old(self).last_report() > PROGRESS_INTERVAL_MS)),
            r is Some ==> final(self).last_report() == now_ms,
            r is None ==> final(self).last_report() == old(self).last_report(),
            r matches Some(p) ==> reports(p, final(self).discovered(), final(self).scanned(), final(self).threat_count())
                && p.percent.0 == percent_of(final(self).scanned(), final(self).discovered())
                && (p.current_file matches Some(f) && old(self).awaiting() == Some(f.0))
                && (final(self).rate() > 0 ==> p.scan_rate == Some(ScanRate(final(self).rate() as u64)))
                && (final(self).rate() == 0 ==> p.scan_rate is None),
    {
        let path = match self.in_flight.take() {
            Some(p) => p,
            None => {
                return None;
            },
        };
        let res = match result {
            Ok(res) => res,
            Err(_) => {
                return None;
            },
        };
        self.scanned = self.scanned + 1;
        if res.is_infected {
            let name = match &res.virus_name {
                Some(n) => n.clone(),
                None => String::from_str("Unknown"),
            };
            self.threats.push((FilePath(res.filename.clone()), VirusName(name)));
            assert(self.threats@.drop_last() =~= old(self).threats@);
        }
        if let Some(first) = self.first_scan_ms {
            if now_ms > first {
                let elapsed = now_ms - first;
                let total: u64 = (self.scanned as u64) * 1_000_000;
                let sample: u64 = total / elapsed;
                assert(sample <= total) by (nonlinear_arith)
                    requires
                        sample == total / elapsed,
                        elapsed >= 1,
                        total >= 0,
                ;
                assert(total <= MAX_RATE);
                if self.ema_rate == 0 {
                    self.ema_rate = sample;
                } else {
                    self.ema_rate = (3 * sample + 7 * self.ema_rate) / 10;
                }
            }
        }
        let since = if now_ms >= self.last_emit_ms { now_ms - self.last_emit_ms } else { 0 };
        if since > PROGRESS_INTERVAL_MS {
            self.last_emit_ms = now_ms;
            let threats_found = self.threats.len() as u32;
            let rate = if self.ema_rate > 0 { Some(ScanRate(self.ema_rate)) } else { None };
            Some(ScanProgress {
                percent: ProgressPercent(scan_percent(self.scanned, self.discovered)),
                scanned_files: ScannedFiles(self.scanned),
                total_files: TotalFiles(self.discovered),
                threats_found: ThreatsFound(threats_found),
                current_file: Some(FilePath(path)),
                discovered_files: DiscoveredFiles(self.discovered),
                scan_rate: rate,
            })
        } else {
            None
        }
    }

    /// The run's outcome. A cancelled run fails with "Scan cancelled" and
    /// reports nothing more; otherwise it completes with every discovered
    /// file as its total, and a last report at 100% with no current file.
    pub fn into_outcome(self) -> (r: (ScanOutcome, Option<ScanProgress>))
        requires
            self.wf(),
        ensures
            self.is_cancelled() ==> r.1 is None && r.0.scanned_files == 0 && r.0.total_files == 0
                && r.0.threats@.len() == 0
                && (r.0.status matches ScanStatus::Failed(m) && m@ == "Scan cancelled"@)
                && (r.0.error_message matches Some(m) && m@ == "Scan cancelled"@),
            !self.is_cancelled() ==> r.0.status == ScanStatus::Completed
                && r.0.total_files == self.discovered()
                && r.0.scanned_files == self.scanned()
                && r.0.threats@ == self.threat_list()
                && r.0.error_message is None
                && (r.1 matches Some(p) && reports(p, self.discovered(), self.scanned(), self.threat_count())
                    && p.percent.0 == 100 && p.current_file is None && p.scan_rate is None),
    {
        if self.cancelled {
            return (ScanOutcome::failed(String::from_str("Scan cancelled")), None);
        }
        let last = ScanProgress {
            percent: ProgressPercent(100),
            scanned_files: ScannedFiles(self.scanned),
            total_files: TotalFiles(self.discovered),
            threats_found: ThreatsFound(self.threats.len() as u32),
            current_file: None,
            discovered_files: DiscoveredFiles(self.discovered),
            scan_rate: None,
        };
        (ScanOutcome::success(self.discovered, self.scanned, self.threats), Some(last))
    }
}

/// First report of a single-file scan: nothing scanned yet, one file in all.
pub fn single_file_start(path: &str) -> (r: ScanProgress)
    ensures
        reports(r, 1, 0, 0),
        r.percent.0 == 0,
        r.current_file matches Some(f) && f.0@ == path@,
        r.scan_rate is None,
{
    ScanProgress {
        percent: ProgressPercent(0),
        scanned_files: ScannedFiles(0),
        total_files: TotalFiles(1),
        threats_found: ThreatsFound(0),
        current_file: Some(FilePath(path.to_owned())),
        discovered_files: DiscoveredFiles(1),
        scan_rate: None,
    }
}

/// Last report and outcome of a single-file scan, given the scan's result,
/// or none when a cancel came before the scan. A verdict completes the task
/// with one file scanned (and its threat, if infected); a failed scan fails
/// the task with the binding's message; a cancel fails it with "Scan
/// cancelled". The last two report nothing more.
pub fn single_file_finish(result: Option<Result<ScanResult, ClamAVError>>) -> (r: (Option<ScanProgress>, ScanOutcome))
    ensures
        result is None ==> r.0 is None && r.1.scanned_files == 0 && r.1.total_files == 0
            && (r.1.status matches ScanStatus::Failed(m) && m@ == "Scan cancelled"@)
            && (r.1.error_message matches Some(m) && m@ == "Scan cancelled"@),
        result matches Some(Ok(res)) ==> ({
            let t: int = if res.is_infected { 1 } else { 0 };
            &&& r.0 matches Some(p) && reports(p, 1, 1, t) && p.percent.0 == 100 && p.current_file is None
            &&& r.1.status == ScanStatus::Completed
            &&& r.1.total_files == 1 && r.1.scanned_files == 1
            &&& r.1.threats@.len() == t
            &&& res.is_infected ==> r.1.threats@[0].0.0@ == res.filename@
                && r.1.threats@[0].1.0@ == reported_virus_name(res.virus_name)
        }),
        result matches Some(Err(e)) ==> r.0 is None && r.1.scanned_files == 0
            && (r.1.status matches ScanStatus::Failed(m) && m@ == error_message(e)),
{
    let result = match result {
        Some(res) => res,
        None => {
            return (None, ScanOutcome::failed(String::from_str("Scan cancelled")));
        },
    };
    match result {
        Ok(res) => {
            let infected = res.is_infected;
            let mut threats: Vec<(FilePath, VirusName)> = Vec::new();
            if infected {
                let name = match res.virus_name {
                    Some(n) => n,
                    None => String::from_str("Unknown"),
                };
                threats.push((FilePath(res.filename), VirusName(name)));
            }
            let last = ScanProgress {
                percent: ProgressPercent(100),
                scanned_files: ScannedFiles(1),
                total_files: TotalFiles(1),
                threats_found: ThreatsFound(if infected { 1 } else { 0 }),
                current_file: None,
                discovered_files: DiscoveredFiles(1),
                scan_rate: None,
            };
            (Some(last), ScanOutcome::success(1, 1, threats))
        },
        Err(e) => (None, ScanOutcome::failed(e.to_string())),
    }
}

/// Outcome of a task whose target does not exist.
pub fn missing_target(path: &str) -> (r: ScanOutcome)
    ensures
        r.status matches ScanStatus::Failed(m) && m@ == "Path does not exist: "@ + path@,
        r.scanned_files == 0,
        r.total_files == 0,
{
    let mut m = String::from_str("Path does not exist: ");
    m.append(path);
    ScanOutcome::failed(m)
}

/// Reports of one run never go back: between two states of a run, where
/// the later one was reached by the run's operations, the scanned and
/// discovered counts of their reports do not decrease, and no report counts
/// more scanned files than discovered ones.
pub proof fn lemma_reports_monotone(a: &ScanRun, b: &ScanRun, p: ScanProgress, q: ScanProgress)
    requires
        a.wf(),
        b.wf(),
        a.advances_to(b),
        reports(p, a.discovered(), a.scanned(), a.threat_count()),
        reports(q, b.discovered(), b.scanned(), b.threat_count()),
    ensures
        p.scanned_files.0 <= q.scanned_files.0,
        p.discovered_files.0 <= q.discovered_files.0,
        p.scanned_files.0 <= p.discovered_files.0,
        q.scanned_files.0 <= q.discovered_files.0,
        q.threats_found.0 <= q.scanned_files.0,
{
    a.lemma_counts_bounded();
    b.lemma_counts_bounded();
}

/// The reports a run emits, in order, never go back: given the run's states
/// at each report, each reached from the previous one by the run's
/// operations (so each advances to the next), every report counts no more
/// scanned or discovered files than any later one, and none counts more
/// scanned files than discovered ones.
pub proof fn lemma_report_sequence_monotone(runs: Seq<ScanRun>, ps: Seq<ScanProgress>)
    requires
        runs.len() == ps.len(),
        forall|i: int| 0 <= i < runs.len() ==> (#[trigger] runs[i]).wf(),
        forall|i: int| 0 <= i < runs.len() - 1 ==> (#[trigger] runs[i]).advances_to(&runs[i + 1]),
        forall|i: int| 0 <= i < runs.len() ==> reports(#[trigger] ps[i], runs[i].discovered(), runs[i].scanned(), runs[i].threat_count()),
    ensures
        forall|i: int, j: int| 0 <= i < j < ps.len() ==> ps[i].scanned_files.0 <= ps[j].scanned_files.0
            && ps[i].discovered_files.0 <= ps[j].discovered_files.0,
        forall|i: int| 0 <= i < ps.len() ==> (#[trigger] ps[i]).scanned_files.0 <= ps[i].discovered_files.0,
{
    assert forall|i: int, j: int| 0 <= i < j < ps.len() implies ps[i].scanned_files.0 <= ps[j].scanned_files.0
        && ps[i].discovered_files.0 <= ps[j].discovered_files.0 by {
        lemma_chain_advances(runs, i, j);
    }
    assert forall|i: int| 0 <= i < ps.len() implies (#[trigger] ps[i]).scanned_files.0 <= ps[i].discovered_files.0 by {
        runs[i].lemma_counts_bounded();
    }
}

proof fn lemma_chain_advances(runs: Seq<ScanRun>, i: int, j: int)
    requires
        0 <= i <= j < runs.len(),
        forall|k: int| 0 <= k < runs.len() - 1 ==> (#[trigger] runs[k]).advances_to(&runs[k + 1]),
    ensures
        runs[i].advances_to(&runs[j]),
    decreases j - i,
{
    if i < j {
        lemma_chain_advances(runs, i + 1, j);
        assert(runs[i].advances_to(&runs[i + 1]));
    }
}

/// Successive steps of a run compose: advancing is transitive.
pub proof fn lemma_advances_transitive(a: &ScanRun, b: &ScanRun, c: &ScanRun)
    requires
        a.advances_to(b),
        b.advances_to(c),
    ensures
        a.advances_to(c),
{
}

/// A run that discovered nothing has scanned nothing and found nothing, so
/// once discovery is over it completes with zero files and no threats.
pub proof fn lemma_empty_run(run: &ScanRun)
    requires
        run.wf(),
        run.discovered() == 0,
    ensures
        run.scanned() == 0,
        run.threat_count() == 0,
        run.queued().len() == 0,
        run.awaiting() is None,
{
    run.lemma_counts_bounded();
}

impl ScanRun {
    /// Scanned files never outnumber discovered ones, threats never
    /// outnumber scanned files, and the queue holds only discovered files.
    pub proof fn lemma_counts_bounded(&self)
        requires
            self.wf(),
        ensures
            0 <= self.threat_count() <= self.scanned(),
            self.scanned() + self.queued().len() <= self.discovered(),
            self.awaiting() is Some ==> self.scanned() + self.queued().len() + 1 <= self.discovered(),
    {
    }
}

} // verus!
