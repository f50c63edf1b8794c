use vstd::prelude::*;

verus! {

/// Result of one signature update.
#[derive(Debug, Clone, PartialEq, Eq)]
pub struct UpdateResultInner {
    pub success: bool,
    pub old_version: Option<String>,
    pub new_version: Option<String>,
}

/// Whether an update runs, and which.
#[derive(Debug, Clone, PartialEq, Eq)]
pub struct UpdateStatus {
    pub is_updating: bool,
    pub current_update_id: Option<String>,
}

/// An update as the history store keeps it. Times are seconds since the
/// Unix epoch.
#[derive(Debug, Clone, PartialEq, Eq)]
pub struct UpdateRecord {
    pub id: i64,
    pub start_time: i64,
    pub end_time: Option<i64>,
    pub result: String,
    pub old_version: Option<String>,
    pub new_version: Option<String>,
    pub error_message: Option<String>,
}

/// At most one signature update at a time.
#[derive(Debug)]
pub struct UpdateTracker {
    current: Option<String>,
}

impl UpdateTracker {
    pub closed spec fn running(&self) -> Option<String> {
        self.current
    }

    /// No update running.
    pub fn new() -> (r: Self)
        ensures
            r.running() is None,
    {
        UpdateTracker { current: None }
    }

    /// Starts the update `update_id` unless one is running.
    pub fn begin(&mut self, update_id: String) -> (r: Result<(), String>)
        ensures
            old(self).running() is Some ==> (r matches Err(m) && m@ == "Update already in progress"@)
                && final(self).running() == old(self).running(),
            old(self).running() is None ==> r is Ok && final(self).running() == Some(update_id),
    {
        if self.current.is_some() {
            return Err(String::from_str("Update already in progress"));
        }
        self.current = Some(update_id);
        Ok(())
    }

    /// The running update is over.
    pub fn finish(&mut self)
        ensures
            final(self).running() is None,
    {
        self.current = None;
    }

    /// Whether an update runs, and which.
    pub fn get_status(&self) -> (r: UpdateStatus)
        ensures
            r.is_updating == self.running() is Some,
            r.current_update_id == self.running(),
    {
        let id = match &self.current {
            Some(s) => Some(s.clone()),
            None => None,
        };
        UpdateStatus { is_updating: self.current.is_some(), current_update_id: id }
    }
}

/// Label recorded for an update's result.
pub fn result_label(success: bool) -> (r: &'static str)
    ensures
        success ==> r@ == "success"@,
        !success ==> r@ == "failed"@,
{
    if success { "success" } else { "failed" }
}

/// What the update status endpoint reports.
#[derive(Debug, Clone, PartialEq, Eq)]
pub struct UpdateSummary {
    /// "updating" or "idle".
    pub status: String,
    /// Daily database version: the last update's new version, else its old one.
    pub daily: Option<String>,
    /// When the last update ended, or began if it has not ended.
    pub last_update: Option<i64>,
}

fn copy_text(t: &Option<String>) -> (r: Option<String>)
    ensures
        r == *t,
{
    match t {
        Some(s) => Some(s.clone()),
        None => None,
    }
}

/// Summary from the tracker's status and the last recorded update.
pub fn update_summary(status: &UpdateStatus, last: &Option<UpdateRecord>) -> (r: UpdateSummary)
    ensures
        status.is_updating ==> r.status@ == "updating"@,
        !status.is_updating ==> r.status@ == "idle"@,
        last is None ==> r.daily is None && r.last_update is None,
        last matches Some(rec) ==> r.daily == (if rec.new_version is Some { rec.new_version } else { rec.old_version })
            && r.last_update == Some(match rec.end_time { Some(e) => e, None => rec.start_time }),
{
    let label = if status.is_updating { String::from_str("updating") } else { String::from_str("idle") };
    match last {
        Some(rec) => {
            let daily = if rec.new_version.is_some() { copy_text(&rec.new_version) } else { copy_text(&rec.old_version) };
            let when = match rec.end_time {
                Some(e) => e,
                None => rec.start_time,
            };
            UpdateSummary { status: label, daily, last_update: Some(when) }
        },
        None => UpdateSummary { status: label, daily: None, last_update: None },
    }
}

/// Seconds an update took: from its start to its end, zero while it has not
/// ended; clamped to the `i64` range.
pub fn update_duration(rec: &UpdateRecord) -> (r: i64)
    ensures
        rec.end_time is None ==> r == 0,
        rec.end_time matches Some(e) ==> (r as int == (if e - rec.start_time > i64::MAX { i64::MAX as int }
            else if e - rec.start_time < i64::MIN { i64::MIN as int } else { e - rec.start_time })),
{
    match rec.end_time {
        None => 0,
        Some(e) => {
            let d: i128 = (e as i128) - (rec.start_time as i128);
            if d > i64::MAX as i128 {
                i64::MAX
            } else if d < i64::MIN as i128 {
                i64::MIN
            } else {
                d as i64
            }
        },
    }
}

} // verus!
