use vstd::prelude::*;
use crate::engine::ScanTarget;
use crate::text::same_text;
use crate::types::{ScanOutcome, ScanProgress, ScanStatus};

verus! {

/// Live view of one active scan, kept in memory so that status queries do
/// not race with the history store. Times are seconds since the Unix epoch.
#[derive(Debug, Clone)]
pub struct ActiveScan {
    pub scan_id: String,
    pub task_id: String,
    pub paths: Vec<String>,
    pub created_at: i64,
    pub scanned_files: u32,
    pub total_files: u32,
    pub current_file: Option<String>,
    pub threats_found: u32,
    /// "scanning" or "paused".
    pub status: String,
}

impl ActiveScan {
    /// An equal copy of the snapshot.
    pub fn duplicate(&self) -> (r: Self)
        ensures
            r.scan_id == self.scan_id,
            r.task_id == self.task_id,
            r.paths@ == self.paths@,
            r.created_at == self.created_at,
            r.scanned_files == self.scanned_files,
            r.total_files == self.total_files,
            r.current_file == self.current_file,
            r.threats_found == self.threats_found,
            r.status == self.status,
    {
        let mut paths: Vec<String> = Vec::new();
        let mut i: usize = 0;
        while i < self.paths.len()
            invariant
                0 <= i <= self.paths@.len(),
                paths@ == self.paths@.subrange(0, i as int),
            decreases self.paths@.len() - i,
        {
            paths.push(self.paths[i].clone());
            assert(self.paths@.subrange(0, i as int + 1) =~= self.paths@.subrange(0, i as int).push(self.paths@[i as int]));
            i += 1;
        }
        assert(self.paths@.subrange(0, self.paths@.len() as int) =~= self.paths@);
        let current_file = match &self.current_file {
            Some(f) => Some(f.clone()),
            None => None,
        };
        ActiveScan {
            scan_id: self.scan_id.clone(),
            task_id: self.task_id.clone(),
            paths,
            created_at: self.created_at,
            scanned_files: self.scanned_files,
            total_files: self.total_files,
            current_file,
            threats_found: self.threats_found,
            status: self.status.clone(),
        }
    }
}

/// A write the host makes to the scan history store.
#[derive(Debug, Clone, PartialEq, Eq)]
pub enum HistoryWrite {
    /// Non-terminal progress of a scan.
    Progress { scan_id: String, scanned: u32, total: u32, current_file: Option<String> },
    /// Non-terminal status change ("paused", "running").
    Status { scan_id: String, status: String },
    /// The terminal record of a scan.
    Finish { scan_id: String, status: String, total_files: u32, threats_found: u32, message: String },
}

/// What the service has asked the history store to record, per scan.
pub enum LogEvent {
    Registered(Seq<char>),
    Progress(Seq<char>),
    Status(Seq<char>, Seq<char>),
    Terminal(Seq<char>, Seq<char>),
}

pub open spec fn event_scan(e: LogEvent) -> Seq<char> {
    match e {
        LogEvent::Registered(s) => s,
        LogEvent::Progress(s) => s,
        LogEvent::Status(s, _) => s,
        LogEvent::Terminal(s, _) => s,
    }
}

/// Number of registrations of scan `s` in the log.
pub open spec fn registrations(log: Seq<LogEvent>, s: Seq<char>) -> nat
    decreases log.len(),
{
    if log.len() == 0 {
        0
    } else {
        registrations(log.drop_last(), s) + (if log.last() == LogEvent::Registered(s) { 1nat } else { 0nat })
    }
}

/// Number of terminal records written for scan `s` in the log.
pub open spec fn terminals(log: Seq<LogEvent>, s: Seq<char>) -> nat
    decreases log.len(),
{
    if log.len() == 0 {
        0
    } else {
        terminals(log.drop_last(), s) + (if (log.last() matches LogEvent::Terminal(x, _) && x == s) { 1nat } else { 0nat })
    }
}

/// The last write concerning scan `s`.
pub open spec fn last_about(log: Seq<LogEvent>, s: Seq<char>) -> Option<LogEvent>
    decreases log.len(),
{
    if log.len() == 0 {
        None
    } else if event_scan(log.last()) == s {
        Some(log.last())
    } else {
        last_about(log.drop_last(), s)
    }
}

proof fn lemma_ids_push(ids: Seq<Seq<char>>, s: Seq<char>)
    requires
        ids.no_duplicates(),
        !ids.contains(s),
    ensures
        ids.push(s).no_duplicates(),
        forall|x: Seq<char>| #[trigger] ids.push(s).contains(x) == (ids.contains(x) || x == s),
{
    let r = ids.push(s);
    assert forall|i: int, j: int| 0 <= i < r.len() && 0 <= j < r.len() && i != j implies r[i] != r[j] by {
        if i == ids.len() as int {
            assert(ids.contains(r[j]));
        } else if j == ids.len() as int {
            assert(ids.contains(r[i]));
        }
    }
    assert forall|x: Seq<char>| #[trigger] r.contains(x) == (ids.contains(x) || x == s) by {
        if r.contains(x) {
            let k = choose|k: int| 0 <= k < r.len() && r[k] == x;
            if k < ids.len() {
                assert(ids[k] == x);
            }
        }
        if ids.contains(x) {
            let k = choose|k: int| 0 <= k < ids.len() && ids[k] == x;
            assert(r[k] == x);
        }
        if x == s {
            assert(r[ids.len() as int] == x);
        }
    }
}

proof fn lemma_ids_remove(ids: Seq<Seq<char>>, i: int)
    requires
        ids.no_duplicates(),
        0 <= i < ids.len(),
    ensures
        ids.remove(i).no_duplicates(),
        forall|x: Seq<char>| #[trigger] ids.remove(i).contains(x) == (ids.contains(x) && x != ids[i]),
{
    let r = ids.remove(i);
    assert forall|a: int, b: int| 0 <= a < r.len() && 0 <= b < r.len() && a != b implies r[a] != r[b] by {
        let a2 = if a < i { a } else { a + 1 };
        let b2 = if b < i { b } else { b + 1 };
        assert(r[a] == ids[a2]);
        assert(r[b] == ids[b2]);
    }
    assert forall|x: Seq<char>| #[trigger] r.contains(x) == (ids.contains(x) && x != ids[i]) by {
        if r.contains(x) {
            let k = choose|k: int| 0 <= k < r.len() && r[k] == x;
            let k2 = if k < i { k } else { k + 1 };
            assert(ids[k2] == x);
        }
        if ids.contains(x) && x != ids[i] {
            let k = choose|k: int| 0 <= k < ids.len() && ids[k] == x;
            if k < i {
                assert(r[k] == x);
            } else {
                assert(k != i);
                assert(r[k - 1] == x);
            }
        }
    }
}

proof fn lemma_last_about_in_log(log: Seq<LogEvent>, s: Seq<char>)
    ensures
        terminals(log, s) > 0 ==> last_about(log, s) is Some,
        last_about(log, s) matches Some(e) ==> log.contains(e) && event_scan(e) == s,
    decreases log.len(),
{
    if log.len() > 0 {
        lemma_last_about_in_log(log.drop_last(), s);
        if let Some(e) = last_about(log.drop_last(), s) {
            if event_scan(log.last()) != s {
                let k = choose|k: int| 0 <= k < log.drop_last().len() && log.drop_last()[k] == e;
                assert(log[k] == e);
            }
        }
        assert(log[log.len() - 1] == log.last());
    }
}

proof fn lemma_log_push(log: Seq<LogEvent>, e: LogEvent, s: Seq<char>)
    ensures
        registrations(log.push(e), s) == registrations(log, s) + (if e == LogEvent::Registered(s) { 1nat } else { 0nat }),
        terminals(log.push(e), s) == terminals(log, s) + (if (e matches LogEvent::Terminal(x, _) && x == s) { 1nat } else { 0nat }),
        last_about(log.push(e), s) == (if event_scan(e) == s { Some(e) } else { last_about(log, s) }),
{
    assert(log.push(e).drop_last() =~= log);
}

/// `b` is snapshot `a` refreshed by the report `p`.
pub open spec fn refreshed(a: ActiveScan, b: ActiveScan, p: ScanProgress) -> bool {
    &&& b.scan_id == a.scan_id
    &&& b.task_id == a.task_id
    &&& b.status == a.status
    &&& b.created_at == a.created_at
    &&& b.paths@ == a.paths@
    &&& b.scanned_files == p.scanned_files.0
    &&& b.total_files == p.total_files.0
    &&& b.threats_found == p.threats_found.0
    &&& (match p.current_file {
        Some(f) => b.current_file == Some(f.0),
        None => b.current_file is None,
    })
}

/// Terminal status recorded for a task's outcome.
pub open spec fn terminal_status(s: ScanStatus) -> Seq<char> {
    match s {
        ScanStatus::Completed => "completed"@,
        ScanStatus::Failed(_) => "failed"@,
        _ => "unknown"@,
    }
}

/// Message recorded with a task's terminal status.
pub open spec fn completion_message(s: ScanStatus, threats: int) -> Seq<char> {
    match s {
        ScanStatus::Failed(m) => m@,
        _ => if threats == 0 { "扫描完成，未发现威胁"@ } else { "扫描完成，发现威胁"@ },
    }
}

/// Bookkeeping of the scans the service runs: a live snapshot per active
/// scan, bound to the engine task that performs it, and the decisions of
/// what to write to the history store. The host performs the writes.
pub struct ScanService {
    active: Vec<ActiveScan>,
    log: Ghost<Seq<LogEvent>>,
}

/// The status reported for a scan: its live snapshot's while active, else
/// the status the history store last recorded for it.
pub open spec fn stored_status(e: Option<LogEvent>) -> Option<Seq<char>> {
    match e {
        Some(LogEvent::Registered(_)) => Some("scanning"@),
        Some(LogEvent::Progress(_)) => Some("scanning"@),
        Some(LogEvent::Status(_, st)) => Some(st),
        Some(LogEvent::Terminal(_, st)) => Some(st),
        None => None,
    }
}

impl ScanService {
    pub closed spec fn scans(&self) -> Seq<ActiveScan> {
        self.active@
    }

    /// Every write the service has asked for, oldest first.
    pub closed spec fn log(&self) -> Seq<LogEvent> {
        self.log@
    }

    /// Identifiers of the active scans.
    pub open spec fn ids(&self) -> Seq<Seq<char>> {
        self.scans().map_values(|a: ActiveScan| a.scan_id@)
    }

    pub open spec fn is_active(&self, s: Seq<char>) -> bool {
        self.ids().contains(s)
    }

    pub open spec fn reported_status(&self, s: Seq<char>) -> Option<Seq<char>> {
        if self.is_active(s) {
            Some(self.scans()[self.ids().index_of(s)].status@)
        } else {
            stored_status(last_about(self.log(), s))
        }
    }

    /// Active scans have distinct identifiers; each registration of a scan is
    /// matched by exactly one terminal record unless the scan is still
    /// active; an inactive scan's last record is terminal; no terminal record
    /// says "scanning".
    pub open spec fn wf(&self) -> bool {
        &&& self.ids().no_duplicates()
        &&& forall|s: Seq<char>| #[trigger] registrations(self.log(), s)
            == terminals(self.log(), s) + (if self.is_active(s) { 1nat } else { 0nat })
        &&& forall|s: Seq<char>| !self.is_active(s) ==> (#[trigger] last_about(self.log(), s) is None
            || last_about(self.log(), s) matches Some(LogEvent::Terminal(_, _)))
        &&& forall|i: int| 0 <= i < self.log().len() ==> !(#[trigger] self.log()[i] matches LogEvent::Terminal(_, st) && st == "scanning"@)
    }

    fn find_scan(&self, scan_id: &str) -> (r: Option<usize>)
        ensures
            r matches Some(i) ==> i < self.scans().len() && self.scans()[i as int].scan_id@ == scan_id@,
            r is Some <==> self.is_active(scan_id@),
    {
        let mut i: usize = 0;
        while i < self.active.len()
            invariant
                0 <= i <= self.active@.len(),
                forall|j: int| 0 <= j < i ==> self.active@[j].scan_id@ != scan_id@,
            decreases self.active@.len() - i,
        {
            if same_text(self.active[i].scan_id.as_str(), scan_id) {
                assert(self.ids()[i as int] == scan_id@);
                return Some(i);
            }
            i += 1;
        }
        proof {
            if self.ids().contains(scan_id@) {
                let k = choose|k: int| 0 <= k < self.ids().len() && self.ids()[k] == scan_id@;
                assert(self.active@[k].scan_id@ == scan_id@);
            }
        }
        None
    }

    fn find_task(&self, task_id: &str) -> (r: Option<usize>)
        ensures
            r matches Some(i) ==> i < self.scans().len() && self.scans()[i as int].task_id@ == task_id@,
            r is None ==> forall|j: int| 0 <= j < self.scans().len() ==> self.scans()[j].task_id@ != task_id@,
    {
        let mut i: usize = 0;
        while i < self.active.len()
            invariant
                0 <= i <= self.active@.len(),
                forall|j: int| 0 <= j < i ==> self.active@[j].task_id@ != task_id@,
            decreases self.active@.len() - i,
        {
            if same_text(self.active[i].task_id.as_str(), task_id) {
                return Some(i);
            }
            i += 1;
        }
        None
    }

    /// Registers a scan of the first target that exists (`targets` holds the
    /// requested paths that exist, in request order) and returns that
    /// target. Fails when none exists or the scan is already active.
    pub fn start_scan(&mut self, scan_id: String, paths: Vec<String>, targets: Vec<ScanTarget>, now: i64) -> (r: Result<ScanTarget, String>)
        requires
            old(self).wf(),
        ensures
            final(self).wf(),
            targets@.len() == 0 ==> (r matches Err(m) && m@ == "No valid paths to scan"@) && final(self).scans() == old(self).scans()
                && final(self).log() == old(self).log(),
            targets@.len() > 0 && old(self).is_active(scan_id@) ==> (r matches Err(m) && m@ == "Scan already active: "@ + scan_id@)
                && final(self).scans() == old(self).scans() && final(self).log() == old(self).log(),
            targets@.len() > 0 && !old(self).is_active(scan_id@) ==> r == Ok::<ScanTarget, String>(targets@[0])
                && final(self).log() == old(self).log().push(LogEvent::Registered(scan_id@))
                && final(self).scans().len() == old(self).scans().len() + 1
                && final(self).scans().drop_last() == old(self).scans()
                && ({
                    let a = final(self).scans().last();
                    &&& a.scan_id == scan_id
                    &&& a.task_id@.len() == 0
                    &&& a.paths == paths
                    &&& a.created_at == now
                    &&& a.scanned_files == 0 && a.total_files == 0 && a.threats_found == 0
                    &&& a.current_file is None
                    &&& a.status@ == "scanning"@
                }),
    {
        if targets.len() == 0 {
            return Err(String::from_str("No valid paths to scan"));
        }
        if self.find_scan(scan_id.as_str()).is_some() {
            let mut m = String::from_str("Scan already active: ");
            m.append(scan_id.as_str());
            return Err(m);
        }
        let target = targets[0].duplicate();
        let ghost old_ids = self.ids();
        let ghost sid = scan_id@;
        let snapshot = ActiveScan {
            scan_id,
            task_id: String::new(),
            paths,
            created_at: now,
            scanned_files: 0,
            total_files: 0,
            current_file: None,
            threats_found: 0,
            status: String::from_str("scanning"),
        };
        self.active.push(snapshot);
        proof {
            let ghost old_log = self.log@;
            self.log@ = self.log@.push(LogEvent::Registered(sid));
            assert(self.ids() =~= old_ids.push(sid));
            lemma_ids_push(old_ids, sid);
            assert forall|x: Seq<char>| #[trigger] registrations(self.log(), x)
                == terminals(self.log(), x) + (if self.is_active(x) { 1nat } else { 0nat }) by {
                lemma_log_push(old_log, LogEvent::Registered(sid), x);
            }
            assert forall|x: Seq<char>| !self.is_active(x) implies (#[trigger] last_about(self.log(), x) is None
                || last_about(self.log(), x) matches Some(LogEvent::Terminal(_, _))) by {
                lemma_log_push(old_log, LogEvent::Registered(sid), x);
            }
            assert forall|i: int| 0 <= i < self.log().len() implies !(#[trigger] self.log()[i] matches LogEvent::Terminal(_, st) && st == "scanning"@) by {
                if i < old_log.len() {
                    assert(self.log()[i] == old_log[i]);
                }
            }
            assert(self.active@.drop_last() =~= old(self).active@);
        }
        Ok(target)
    }

    /// Records the engine task that performs an active scan. Refused (false,
    /// nothing changes) when the scan is not active or the task already
    /// performs another active scan.
    pub fn bind_task(&mut self, scan_id: &str, task_id: String) -> (r: bool)
        requires
            old(self).wf(),
        ensures
            final(self).wf(),
            final(self).log() == old(self).log(),
            final(self).ids() == old(self).ids(),
            !old(self).is_active(scan_id@) ==> !r,
            old(self).is_active(scan_id@)
                && (forall|j: int| 0 <= j < old(self).scans().len() ==> old(self).scans()[j].task_id@ != task_id@) ==> r,
            !r ==> final(self).scans() == old(self).scans(),
            r ==> ({
                let i = old(self).ids().index_of(scan_id@);
                &&& final(self).scans()[i].task_id == task_id
                &&& forall|j: int| 0 <= j < old(self).scans().len() && j != i ==> final(self).scans()[j] == old(self).scans()[j]
            }),
    {
        let i = match self.find_scan(scan_id) {
            Some(i) => i,
            None => {
                return false;
            },
        };
        if let Some(j) = self.find_task(task_id.as_str()) {
            if j != i {
                return false;
            }
        }
        let mut a = self.active[i].duplicate();
        a.task_id = task_id;
        let ghost old_ids = self.ids();
        self.active.set(i, a);
        proof {
            assert(self.ids() =~= old_ids);
            assert(old_ids[i as int] == scan_id@);
            assert(old_ids.contains(scan_id@));
            assert(old_ids.index_of(scan_id@) == i);
        }
        true
    }

    /// Removes the active scan at `i` and records its terminal status.
    fn retire(&mut self, i: usize, Ghost(status): Ghost<Seq<char>>)
        requires
            old(self).wf(),
            i < old(self).scans().len(),
            status != "scanning"@,
        ensures
            final(self).wf(),
            final(self).scans() == old(self).scans().remove(i as int),
            final(self).log() == old(self).log().push(LogEvent::Terminal(old(self).scans()[i as int].scan_id@, status)),
            !final(self).is_active(old(self).scans()[i as int].scan_id@),
            forall|x: Seq<char>| x != old(self).scans()[i as int].scan_id@ ==> final(self).is_active(x) == old(self).is_active(x),
    {
        let ghost old_ids = self.ids();
        let ghost old_log = self.log@;
        let ghost sid = self.active@[i as int].scan_id@;
        let ghost ev = LogEvent::Terminal(sid, status);
        let _ = self.active.remove(i);
        proof {
            self.log@ = self.log@.push(ev);
            assert(self.ids() =~= old_ids.remove(i as int));
            lemma_ids_remove(old_ids, i as int);
            assert(old_ids[i as int] == sid);
            assert(old_ids.contains(sid));
            assert forall|x: Seq<char>| #[trigger] registrations(self.log(), x)
                == terminals(self.log(), x) + (if self.is_active(x) { 1nat } else { 0nat }) by {
                lemma_log_push(old_log, ev, x);
            }
            assert forall|x: Seq<char>| !self.is_active(x) implies (#[trigger] last_about(self.log(), x) is None
                || last_about(self.log(), x) matches Some(LogEvent::Terminal(_, _))) by {
                lemma_log_push(old_log, ev, x);
            }
            assert forall|k: int| 0 <= k < self.log().len() implies !(#[trigger] self.log()[k] matches LogEvent::Terminal(_, st) && st == "scanning"@) by {
                if k < old_log.len() {
                    assert(self.log()[k] == old_log[k]);
                }
            }
        }
    }

    /// Replaces the snapshot at `i` by one with the same scan identifier and
    /// appends a non-terminal record about that scan.
    fn refresh(&mut self, i: usize, a: ActiveScan, Ghost(ev): Ghost<Option<LogEvent>>)
        requires
            old(self).wf(),
            i < old(self).scans().len(),
            a.scan_id@ == old(self).scans()[i as int].scan_id@,
            ev matches Some(e) ==> event_scan(e) == a.scan_id@ && !(e is Terminal) && !(e is Registered),
        ensures
            final(self).wf(),
            final(self).scans() == old(self).scans().update(i as int, a),
            final(self).ids() == old(self).ids(),
            final(self).log() == (match ev {
                Some(e) => old(self).log().push(e),
                None => old(self).log(),
            }),
    {
        let ghost old_ids = self.ids();
        let ghost old_log = self.log@;
        self.active.set(i, a);
        proof {
            assert(self.ids() =~= old_ids);
            if let Some(e) = ev {
                self.log@ = self.log@.push(e);
                assert(old_ids[i as int] == event_scan(e));
                assert(old_ids.contains(event_scan(e)));
                assert forall|x: Seq<char>| #[trigger] registrations(self.log(), x)
                    == terminals(self.log(), x) + (if self.is_active(x) { 1nat } else { 0nat }) by {
                    lemma_log_push(old_log, e, x);
                }
                assert forall|x: Seq<char>| !self.is_active(x) implies (#[trigger] last_about(self.log(), x) is None
                    || last_about(self.log(), x) matches Some(LogEvent::Terminal(_, _))) by {
                    lemma_log_push(old_log, e, x);
                }
                assert forall|k: int| 0 <= k < self.log().len() implies !(#[trigger] self.log()[k] matches LogEvent::Terminal(_, st) && st == "scanning"@) by {
                    if k < old_log.len() {
                        assert(self.log()[k] == old_log[k]);
                    }
                }
            }
        }
    }

    /// A progress report of an engine task: refreshes the snapshot of the
    /// active scan the task performs, and, only while fewer files are
    /// scanned than discovered, asks for a non-terminal progress record. Reports
    /// of tasks that perform no active scan change nothing.
    pub fn on_progress(&mut self, task_id: &str, p: &ScanProgress) -> (r: Option<HistoryWrite>)
        requires
            old(self).wf(),
        ensures
            final(self).wf(),
            final(self).ids() == old(self).ids(),
            (forall|j: int| 0 <= j < old(self).scans().len() ==> old(self).scans()[j].task_id@ != task_id@) ==>
                r is None && final(self).scans() == old(self).scans() && final(self).log() == old(self).log(),
            r is None ==> final(self).log() == old(self).log(),
            (exists|j: int| 0 <= j < old(self).scans().len() && old(self).scans()[j].task_id@ == task_id@) ==>
                exists|i: int| 0 <= i < old(self).scans().len() && #[trigger] old(self).scans()[i].task_id@ == task_id@
                    && final(self).scans().len() == old(self).scans().len()
                    && (forall|k: int| 0 <= k < old(self).scans().len() && k != i ==> final(self).scans()[k] == old(self).scans()[k])
                    && refreshed(old(self).scans()[i], final(self).scans()[i], *p)
                    && (r is Some <==> p.scanned_files.0 < p.discovered_files.0),
            r matches Some(w) ==> p.scanned_files.0 < p.discovered_files.0 && (w matches HistoryWrite::Progress { scan_id, scanned, total, current_file }
                && scanned == p.scanned_files.0 && total == p.total_files.0
                && old(self).is_active(scan_id@)
                && final(self).log() == old(self).log().push(LogEvent::Progress(scan_id@))),
    {
        let i = match self.find_task(task_id) {
            Some(i) => i,
            None => {
                return None;
            },
        };
        let mut a = self.active[i].duplicate();
        a.scanned_files = p.scanned_files.0;
        a.total_files = p.total_files.0;
        a.current_file = match &p.current_file {
            Some(f) => Some(f.0.clone()),
            None => None,
        };
        a.threats_found = p.threats_found.0;
        let sid = a.scan_id.clone();
        let current_file = a.current_file.clone();
        proof {
            assert(self.ids()[i as int] == sid@);
            assert(refreshed(self.active@[i as int], a, *p));
        }
        if p.scanned_files.0 < p.discovered_files.0 {
            self.refresh(i, a, Ghost(Some(LogEvent::Progress(sid@))));
            Some(HistoryWrite::Progress {
                scan_id: sid,
                scanned: p.scanned_files.0,
                total: p.total_files.0,
                current_file,
            })
        } else {
            self.refresh(i, a, Ghost(None));
            None
        }
    }

    /// A task finished: the active scan it performs (if any) gets one
    /// terminal record, "completed" or "failed" with the task's threat count,
    /// and stops being active.
    pub fn on_complete(&mut self, task_id: &str, outcome: &ScanOutcome) -> (r: Option<HistoryWrite>)
        requires
            old(self).wf(),
        ensures
            final(self).wf(),
            (forall|j: int| 0 <= j < old(self).scans().len() ==> old(self).scans()[j].task_id@ != task_id@) ==>
                r is None && final(self).scans() == old(self).scans() && final(self).log() == old(self).log(),
            (exists|j: int| 0 <= j < old(self).scans().len() && old(self).scans()[j].task_id@ == task_id@) ==> r is Some,
            r matches Some(w) ==> (w matches HistoryWrite::Finish { scan_id, status, total_files, threats_found, message }
                && old(self).is_active(scan_id@)
                && (exists|i: int| 0 <= i < old(self).scans().len() && #[trigger] old(self).scans()[i].task_id@ == task_id@
                    && old(self).scans()[i].scan_id == scan_id)
                && !final(self).is_active(scan_id@)
                && (forall|x: Seq<char>| x != scan_id@ ==> final(self).is_active(x) == old(self).is_active(x))
                && final(self).log() == old(self).log().push(LogEvent::Terminal(scan_id@, status@))
                && status@ == terminal_status(outcome.status)
                && total_files == outcome.total_files
                && threats_found as int == (if outcome.threats@.len() > u32::MAX { u32::MAX as int } else { outcome.threats@.len() as int })
                && message@ == completion_message(outcome.status, outcome.threats@.len() as int)),
    {
        let i = match self.find_task(task_id) {
            Some(i) => i,
            None => {
                return None;
            },
        };
        let sid = self.active[i].scan_id.clone();
        let status = match &outcome.status {
            ScanStatus::Completed => String::from_str("completed"),
            ScanStatus::Failed(_) => String::from_str("failed"),
            _ => String::from_str("unknown"),
        };
        let n = outcome.threats.len();
        let message = match &outcome.status {
            ScanStatus::Failed(m) => m.clone(),
            _ => if n == 0 {
                String::from_str("扫描完成，未发现威胁")
            } else {
                String::from_str("扫描完成，发现威胁")
            },
        };
        proof {
            assert(self.ids()[i as int] == sid@);
            reveal_strlit("scanning");
            reveal_strlit("completed");
            reveal_strlit("failed");
            reveal_strlit("unknown");
            assert(status@.len() != "scanning"@.len());
        }
        self.retire(i, Ghost(status@));
        let threats_found: u32 = if n > u32::MAX as usize { u32::MAX } else { n as u32 };
        Some(HistoryWrite::Finish {
            scan_id: sid,
            status,
            total_files: outcome.total_files,
            threats_found,
            message,
        })
    }

    /// Stops an active scan: returns the engine task to cancel and its
    /// terminal "stopped" record; the scan stops being active.
    pub fn stop_scan(&mut self, scan_id: &str) -> (r: Result<(String, HistoryWrite), String>)
        requires
            old(self).wf(),
        ensures
            final(self).wf(),
            !old(self).is_active(scan_id@) ==> (r matches Err(m) && m@ == "Scan not found: "@ + scan_id@)
                && final(self).scans() == old(self).scans() && final(self).log() == old(self).log(),
            old(self).is_active(scan_id@) ==> (r matches Ok((task_id, w))
                && task_id == old(self).scans()[old(self).ids().index_of(scan_id@)].task_id
                && (w matches HistoryWrite::Finish { scan_id: s, status, total_files, threats_found, message }
                    && s@ == scan_id@ && status@ == "stopped"@ && total_files == 0 && threats_found == 0
                    && message@ == "Stopped by user"@))
                && !final(self).is_active(scan_id@)
                && (forall|x: Seq<char>| x != scan_id@ ==> final(self).is_active(x) == old(self).is_active(x))
                && final(self).log() == old(self).log().push(LogEvent::Terminal(scan_id@, "stopped"@)),
    {
        let i = match self.find_scan(scan_id) {
            Some(i) => i,
            None => {
                let mut m = String::from_str("Scan not found: ");
                m.append(scan_id);
                return Err(m);
            },
        };
        let task_id = self.active[i].task_id.clone();
        let sid = self.active[i].scan_id.clone();
        proof {
            assert(self.ids()[i as int] == scan_id@);
            assert(self.ids().index_of(scan_id@) == i);
            reveal_strlit("scanning");
            reveal_strlit("stopped");
            assert("stopped"@.len() != "scanning"@.len());
        }
        self.retire(i, Ghost("stopped"@));
        let w = HistoryWrite::Finish {
            scan_id: sid,
            status: String::from_str("stopped"),
            total_files: 0,
            threats_found: 0,
            message: String::from_str("Stopped by user"),
        };
        Ok((task_id, w))
    }

    /// Marks an active scan paused (or running again when `paused` is false):
    /// returns the engine task to pause or resume and the status record.
    pub fn set_paused(&mut self, scan_id: &str, paused: bool) -> (r: Result<(String, HistoryWrite), String>)
        requires
            old(self).wf(),
        ensures
            final(self).wf(),
            final(self).ids() == old(self).ids(),
            !old(self).is_active(scan_id@) ==> (r matches Err(m) && m@ == "Scan not found: "@ + scan_id@)
                && final(self).scans() == old(self).scans() && final(self).log() == old(self).log(),
            old(self).is_active(scan_id@) ==> ({
                let i = old(self).ids().index_of(scan_id@);
                let st: Seq<char> = if paused { "paused"@ } else { "running"@ };
                &&& r matches Ok((task_id, w)) && task_id == old(self).scans()[i].task_id
                    && (w matches HistoryWrite::Status { scan_id: s, status } && s@ == scan_id@ && status@ == st)
                &&& final(self).scans()[i].status@ == (if paused { "paused"@ } else { "scanning"@ })
                &&& final(self).log() == old(self).log().push(LogEvent::Status(scan_id@, st))
            }),
    {
        let i = match self.find_scan(scan_id) {
            Some(i) => i,
            None => {
                let mut m = String::from_str("Scan not found: ");
                m.append(scan_id);
                return Err(m);
            },
        };
        let task_id = self.active[i].task_id.clone();
        let mut a = self.active[i].duplicate();
        a.status = if paused { String::from_str("paused") } else { String::from_str("scanning") };
        let status = if paused { String::from_str("paused") } else { String::from_str("running") };
        let sid = a.scan_id.clone();
        proof {
            assert(self.ids()[i as int] == scan_id@);
            assert(self.ids().index_of(scan_id@) == i);
        }
        self.refresh(i, a, Ghost(Some(LogEvent::Status(sid@, status@))));
        Ok((task_id, HistoryWrite::Status { scan_id: sid, status }))
    }

    /// Identifier of the first active scan.
    pub fn get_current_scan_id(&self) -> (r: Option<String>)
        ensures
            self.scans().len() == 0 ==> r is None,
            self.scans().len() > 0 ==> r == Some(self.scans()[0].scan_id),
    {
        if self.active.len() == 0 {
            None
        } else {
            Some(self.active[0].scan_id.clone())
        }
    }

    /// Snapshot of the first active scan.
    pub fn get_current_scan_progress(&self) -> (r: Option<ActiveScan>)
        ensures
            self.scans().len() == 0 ==> r is None,
            self.scans().len() > 0 ==> (r matches Some(a) && a.scan_id == self.scans()[0].scan_id
                && a.task_id == self.scans()[0].task_id
                && a.scanned_files == self.scans()[0].scanned_files
                && a.total_files == self.scans()[0].total_files
                && a.threats_found == self.scans()[0].threats_found
                && a.current_file == self.scans()[0].current_file
                && a.status == self.scans()[0].status
                && a.created_at == self.scans()[0].created_at
                && a.paths@ == self.scans()[0].paths@),
    {
        if self.active.len() == 0 {
            None
        } else {
            Some(self.active[0].duplicate())
        }
    }

    /// Snapshot of the given scan while it is active.
    pub fn scan_snapshot(&self, scan_id: &str) -> (r: Option<ActiveScan>)
        requires
            self.wf(),
        ensures
            r is Some <==> self.is_active(scan_id@),
            r matches Some(a) ==> a.scan_id@ == scan_id@
                && a.status == self.scans()[self.ids().index_of(scan_id@)].status
                && a.scanned_files == self.scans()[self.ids().index_of(scan_id@)].scanned_files,
    {
        match self.find_scan(scan_id) {
            Some(i) => {
                proof {
                    assert(self.ids()[i as int] == scan_id@);
                    assert(self.ids().index_of(scan_id@) == i);
                }
                Some(self.active[i].duplicate())
            },
            None => None,
        }
    }

    /// Whether any scan is active.
    pub fn is_scanning(&self) -> (r: bool)
        ensures
            r <==> self.scans().len() > 0,
    {
        self.active.len() > 0
    }

    /// A service with no active scan.
    pub fn new() -> (r: Self)
        ensures
            r.wf(),
            r.scans().len() == 0,
            r.log().len() == 0,
    {
        ScanService { active: Vec::new(), log: Ghost(Seq::empty()) }
    }
}

/// A scan's terminal record is written at most once per registration: the
/// terminal records of a scan never outnumber its registrations, so a scan
/// identifier registered once (the history store keeps identifiers unique)
/// is finished at most once.
pub proof fn lemma_terminal_at_most_once(svc: &ScanService, s: Seq<char>)
    requires
        svc.wf(),
    ensures
        terminals(svc.log(), s) <= registrations(svc.log(), s),
        registrations(svc.log(), s) <= 1 ==> terminals(svc.log(), s) <= 1,
        svc.is_active(s) ==> terminals(svc.log(), s) < registrations(svc.log(), s),
{
    assert(registrations(svc.log(), s) == terminals(svc.log(), s) + (if svc.is_active(s) { 1nat } else { 0nat }));
}

/// Once a scan's terminal record is written it is no longer active, and
/// every later status query reports the terminal status, never "scanning":
/// no operation but a new registration makes it active again, and no
/// progress is recorded for an inactive scan.
pub proof fn lemma_no_scanning_after_terminal(svc: &ScanService, s: Seq<char>)
    requires
        svc.wf(),
        !svc.is_active(s),
        terminals(svc.log(), s) > 0,
    ensures
        svc.reported_status(s) is Some,
        svc.reported_status(s) != Some("scanning"@),
        last_about(svc.log(), s) matches Some(LogEvent::Terminal(_, _)),
{
    lemma_last_about_in_log(svc.log(), s);
    let e = last_about(svc.log(), s)->Some_0;
    let k = choose|k: int| 0 <= k < svc.log().len() && svc.log()[k] == e;
    assert(svc.log()[k] == e);
}

} // verus!
