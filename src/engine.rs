use vstd::prelude::*;
use std::collections::VecDeque;
use crate::binding::ScanOptions;
use crate::platform::{fresh_uuid, is_directory, unix_now, is_uuid_text};
use crate::types::ScanProgress;
use crate::text::same_text;

verus! {

/// Identifier of a task.
pub type TaskId = String;

/// Priority of a task; a higher one is dispatched first.
#[derive(Debug, Clone, Copy, PartialEq, Eq, Structural, PartialOrd, Ord)]
pub enum TaskPriority {
    Low,
    Normal,
    High,
}

impl TaskPriority {
    pub open spec fn rank(self) -> int {
        match self {
            TaskPriority::Low => 0,
            TaskPriority::Normal => 1,
            TaskPriority::High => 2,
        }
    }

    /// Numeric level of the priority: 0 for low, 1 for normal, 2 for high.
    pub fn level(&self) -> (r: u8)
        ensures
            r as int == self.rank(),
    {
        match self {
            TaskPriority::Low => 0,
            TaskPriority::Normal => 1,
            TaskPriority::High => 2,
        }
    }
}

impl Default for TaskPriority {
    fn default() -> (r: Self)
        ensures
            r == TaskPriority::Normal,
    {
        TaskPriority::Normal
    }
}

/// What a task scans: one file or a directory tree.
#[derive(Debug, Clone, PartialEq, Eq)]
pub enum ScanTarget {
    File(String),
    Directory(String),
}

impl ScanTarget {
    pub open spec fn target_path(self) -> Seq<char> {
        match self {
            ScanTarget::File(p) => p@,
            ScanTarget::Directory(p) => p@,
        }
    }

    /// A directory target when `path` names a directory now, else a file target.
    pub fn from_path(path: &str) -> (r: Self)
        ensures
            r.target_path() == path@,
    {
        let dir = is_directory(path);
        ScanTarget::with_kind(path, dir)
    }

    /// A directory target for `path` when `is_directory` holds, else a file target.
    pub fn with_kind(path: &str, is_directory: bool) -> (r: Self)
        ensures
            r.target_path() == path@,
            is_directory <==> r is Directory,
    {
        if is_directory {
            ScanTarget::Directory(path.to_owned())
        } else {
            ScanTarget::File(path.to_owned())
        }
    }

    /// The path the target names.
    pub fn path(&self) -> (r: &str)
        ensures
            r@ == self.target_path(),
    {
        match self {
            ScanTarget::File(p) => p.as_str(),
            ScanTarget::Directory(p) => p.as_str(),
        }
    }

    /// An equal copy of the target.
    pub fn duplicate(&self) -> (r: Self)
        ensures
            r == *self,
    {
        match self {
            ScanTarget::File(p) => ScanTarget::File(p.clone()),
            ScanTarget::Directory(p) => ScanTarget::Directory(p.clone()),
        }
    }
}

/// Life-cycle state of a task.
#[derive(Debug, Clone, PartialEq, Eq)]
pub enum TaskState {
    Pending,
    Running,
    Paused,
    Completed,
    Failed(String),
    Cancelled,
}

impl TaskState {
    /// An equal copy of the state.
    pub fn duplicate(&self) -> (r: Self)
        ensures
            r == *self,
    {
        match self {
            TaskState::Pending => TaskState::Pending,
            TaskState::Running => TaskState::Running,
            TaskState::Paused => TaskState::Paused,
            TaskState::Completed => TaskState::Completed,
            TaskState::Failed(m) => TaskState::Failed(m.clone()),
            TaskState::Cancelled => TaskState::Cancelled,
        }
    }
}

/// One unit of scan work. Times are seconds since the Unix epoch.
#[derive(Debug, Clone)]
pub struct ScanTask {
    pub id: TaskId,
    pub target: ScanTarget,
    pub priority: TaskPriority,
    pub state: TaskState,
    pub options: ScanOptions,
    pub created_at: i64,
    pub started_at: Option<i64>,
    pub completed_at: Option<i64>,
    pub progress: ScanProgress,
}

impl ScanTask {
    /// A new pending task with a fresh random identifier, created now.
    pub fn new(target: ScanTarget, priority: TaskPriority, options: ScanOptions) -> (r: Self)
        ensures
            is_uuid_text(r.id@),
            r.target == target,
            r.priority == priority,
            r.options == options,
            r.state == TaskState::Pending,
            r.started_at is None,
            r.completed_at is None,
    {
        let id = fresh_uuid();
        let now = unix_now();
        ScanTask::with_identity(id, now, target, priority, options)
    }

    /// A new pending task with the given identifier and creation time.
    pub fn with_identity(id: TaskId, created_at: i64, target: ScanTarget, priority: TaskPriority, options: ScanOptions) -> (r: Self)
        ensures
            r.id == id,
            r.created_at == created_at,
            r.target == target,
            r.priority == priority,
            r.options == options,
            r.state == TaskState::Pending,
            r.started_at is None,
            r.completed_at is None,
            r.progress.percent.0 == 0,
            r.progress.scanned_files.0 == 0,
            r.progress.current_file is None,
    {
        ScanTask {
            id,
            target,
            priority,
            state: TaskState::Pending,
            options,
            created_at,
            started_at: None,
            completed_at: None,
            progress: ScanProgress::new(),
        }
    }

    /// The same task with another priority.
    pub fn with_priority(self, priority: TaskPriority) -> (r: Self)
        ensures
            r == (ScanTask { priority, ..self }),
    {
        let mut t = self;
        t.priority = priority;
        t
    }

    /// The same task with other options.
    pub fn with_options(self, options: ScanOptions) -> (r: Self)
        ensures
            r == (ScanTask { options, ..self }),
    {
        let mut t = self;
        t.options = options;
        t
    }

    /// An equal copy of the task.
    pub fn duplicate(&self) -> (r: Self)
        ensures
            r == *self,
    {
        ScanTask {
            id: self.id.clone(),
            target: self.target.duplicate(),
            priority: self.priority,
            state: self.state.duplicate(),
            options: self.options,
            created_at: self.created_at,
            started_at: self.started_at,
            completed_at: self.completed_at,
            progress: self.progress.duplicate(),
        }
    }
}

/// Index at which a task of priority `p` joins the pending sequence `q`:
/// before the first task of lower priority, else at the end.
pub open spec fn slot_for(q: Seq<ScanTask>, p: TaskPriority) -> nat
    decreases q.len(),
{
    if q.len() == 0 {
        0
    } else if p.rank() > q[0].priority.rank() {
        0
    } else {
        1 + slot_for(q.drop_first(), p)
    }
}

/// The sequence is ordered by priority, highest first.
pub open spec fn by_priority(q: Seq<ScanTask>) -> bool {
    forall|i: int, j: int| 0 <= i < j < q.len() ==> q[i].priority.rank() >= q[j].priority.rank()
}

proof fn lemma_slot_for(q: Seq<ScanTask>, p: TaskPriority, i: int)
    requires
        0 <= i <= q.len(),
        forall|j: int| 0 <= j < i ==> q[j].priority.rank() >= p.rank(),
        i == q.len() || p.rank() > q[i].priority.rank(),
    ensures
        slot_for(q, p) == i,
    decreases i,
{
    if i > 0 {
        lemma_slot_for(q.drop_first(), p, i - 1);
    }
}

proof fn lemma_slot_bounds(q: Seq<ScanTask>, p: TaskPriority)
    ensures
        slot_for(q, p) <= q.len(),
        forall|j: int| 0 <= j < slot_for(q, p) ==> q[j].priority.rank() >= p.rank(),
        slot_for(q, p) < q.len() ==> p.rank() > q[slot_for(q, p) as int].priority.rank(),
    decreases q.len(),
{
    if q.len() > 0 && p.rank() <= q[0].priority.rank() {
        lemma_slot_bounds(q.drop_first(), p);
        assert forall|j: int| 0 <= j < slot_for(q, p) implies q[j].priority.rank() >= p.rank() by {
            if j > 0 {
                assert(q[j] == q.drop_first()[j - 1]);
            }
        }
    }
}

/// Keeps the tasks whose identifier is not `id`.
pub open spec fn other_than(id: Seq<char>) -> spec_fn(ScanTask) -> bool {
    |t: ScanTask| t.id@ != id
}

/// Pending tasks ordered by priority, plus the one task that runs.
#[derive(Debug)]
pub struct TaskQueue {
    queue: VecDeque<ScanTask>,
    current_task: Option<ScanTask>,
}

impl TaskQueue {
    /// The pending tasks, front first.
    pub closed spec fn pending(&self) -> Seq<ScanTask> {
        self.queue@
    }

    /// The task in the running slot.
    pub closed spec fn running(&self) -> Option<ScanTask> {
        self.current_task
    }

    /// An empty queue with no running task.
    pub fn new() -> (r: Self)
        ensures
            r.pending().len() == 0,
            r.running() is None,
    {
        TaskQueue { queue: VecDeque::new(), current_task: None }
    }

    /// Adds a pending task before the first one of lower priority, so that
    /// tasks of equal priority leave in the order they came.
    pub fn push(&mut self, task: ScanTask)
        ensures
            final(self).pending() == old(self).pending().insert(slot_for(old(self).pending(), task.priority) as int, task),
            final(self).running() == old(self).running(),
    {
        let n = self.queue.len();
        let mut insert_idx = n;
        let mut i: usize = 0;
        let level = task.priority.level();
        while i < n
            invariant
                n == self.queue@.len(),
                0 <= i <= n,
                insert_idx <= n,
                level as int == task.priority.rank(),
                insert_idx < n ==> insert_idx < i && task.priority.rank() > self.queue@[insert_idx as int].priority.rank(),
                forall|j: int| 0 <= j < i && j < insert_idx ==> self.queue@[j].priority.rank() >= task.priority.rank(),
            decreases n - i,
        {
            if insert_idx == n && level > self.queue[i].priority.level() {
                insert_idx = i;
            }
            i += 1;
        }
        proof {
            lemma_slot_for(self.queue@, task.priority, insert_idx as int);
        }
        self.queue.insert(insert_idx, task);
    }

    /// Removes and returns the front task.
    pub fn pop(&mut self) -> (r: Option<ScanTask>)
        ensures
            old(self).pending().len() == 0 ==> r is None && final(self).pending() == old(self).pending(),
            old(self).pending().len() > 0 ==> r == Some(old(self).pending()[0])
                && final(self).pending() == old(self).pending().drop_first(),
            final(self).running() == old(self).running(),
    {
        let r = self.queue.pop_front();
        proof {
            if old(self).queue@.len() > 0 {
                assert(self.queue@ =~= old(self).queue@.drop_first());
            }
        }
        r
    }

    /// The front task, if any.
    pub fn peek(&self) -> (r: Option<&ScanTask>)
        ensures
            self.pending().len() == 0 ==> r is None,
            self.pending().len() > 0 ==> r == Some(&self.pending()[0]),
    {
        if self.queue.len() == 0 {
            None
        } else {
            Some(&self.queue[0])
        }
    }

    /// The pending task at index `i`.
    pub fn nth(&self, i: usize) -> (r: &ScanTask)
        requires
            i < self.pending().len(),
        ensures
            *r == self.pending()[i as int],
    {
        &self.queue[i]
    }

    /// Number of pending tasks.
    pub fn len(&self) -> (r: usize)
        ensures
            r == self.pending().len(),
    {
        self.queue.len()
    }

    /// Whether no task is pending.
    pub fn is_empty(&self) -> (r: bool)
        ensures
            r <==> self.pending().len() == 0,
    {
        self.queue.len() == 0
    }

    /// Puts a task in the running slot.
    pub fn set_current(&mut self, task: ScanTask)
        ensures
            final(self).running() == Some(task),
            final(self).pending() == old(self).pending(),
    {
        self.current_task = Some(task);
    }

    /// The running task, if any.
    pub fn current(&self) -> (r: Option<&ScanTask>)
        ensures
            r matches Some(t) ==> self.running() == Some(*t),
            r is None <==> self.running() is None,
    {
        match &self.current_task {
            Some(t) => Some(t),
            None => None,
        }
    }

    /// Empties the running slot and returns what it held.
    pub fn take_current(&mut self) -> (r: Option<ScanTask>)
        ensures
            r == old(self).running(),
            final(self).running() is None,
            final(self).pending() == old(self).pending(),
    {
        self.current_task.take()
    }

    /// The first pending task with the given identifier, if any.
    pub fn find_pending(&self, task_id: &str) -> (r: Option<&ScanTask>)
        ensures
            r matches Some(t) ==> self.pending().contains(*t) && t.id@ == task_id@,
            r is None <==> forall|i: int| 0 <= i < self.pending().len() ==> self.pending()[i].id@ != task_id@,
    {
        let n = self.queue.len();
        let mut i: usize = 0;
        while i < n
            invariant
                n == self.queue@.len(),
                0 <= i <= n,
                forall|j: int| 0 <= j < i ==> self.queue@[j].id@ != task_id@,
            decreases n - i,
        {
            if same_text(self.queue[i].id.as_str(), task_id) {
                return Some(&self.queue[i]);
            }
            i += 1;
        }
        None
    }

    /// Removes every pending task with the given identifier and returns
    /// true; returns false, changing nothing, when the identifier is the
    /// running task's.
    pub fn cancel(&mut self, task_id: &str) -> (r: bool)
        ensures
            (old(self).running() matches Some(t) && t.id@ == task_id@) ==> !r && *final(self) == *old(self),
            !(old(self).running() matches Some(t) && t.id@ == task_id@) ==> r
                && final(self).pending() == old(self).pending().filter(other_than(task_id@))
                && final(self).running() == old(self).running(),
    {
        if let Some(current) = &self.current_task {
            if same_text(current.id.as_str(), task_id) {
                return false;
            }
        }
        let ghost pred = other_than(task_id@);
        let mut kept: VecDeque<ScanTask> = VecDeque::new();
        let n = self.queue.len();
        let mut i: usize = 0;
        while i < n
            invariant
                n == self.queue@.len(),
                0 <= i <= n,
                self.queue@ == old(self).queue@,
                pred == other_than(task_id@),
                kept@ == self.queue@.subrange(0, i as int).filter(pred),
            decreases n - i,
        {
            let t = &self.queue[i];
            let ghost before = kept@;
            if !same_text(t.id.as_str(), task_id) {
                kept.push_back(t.duplicate());
            }
            proof {
                let s = self.queue@.subrange(0, i as int + 1);
                assert(s.drop_last() =~= self.queue@.subrange(0, i as int));
                assert(s.last() == self.queue@[i as int]);
                assert(*t == self.queue@[i as int]);
                assert(pred(s.last()) == (s.last().id@ != task_id@));
                assert(before == s.drop_last().filter(pred));
                assert(s.filter(pred) == (if pred(s.last()) {
                    s.drop_last().filter(pred).push(s.last())
                } else {
                    s.drop_last().filter(pred)
                })) by {
                    reveal(Seq::filter);
                }
            }
            i += 1;
        }
        assert(self.queue@.subrange(0, n as int) =~= self.queue@);
        self.queue = kept;
        true
    }
}

impl Default for TaskQueue {
    fn default() -> (r: Self)
        ensures
            r.pending().len() == 0,
            r.running() is None,
    {
        TaskQueue::new()
    }
}

/// The task with its state set to running.
pub open spec fn as_running(t: ScanTask) -> ScanTask {
    ScanTask { state: TaskState::Running, ..t }
}

/// The task with its state set to pending.
pub open spec fn as_pending(t: ScanTask) -> ScanTask {
    ScanTask { state: TaskState::Pending, ..t }
}

/// Number of running tasks in a sequence.
pub open spec fn running_count(s: Seq<ScanTask>) -> nat
    decreases s.len(),
{
    if s.len() == 0 {
        0
    } else {
        running_count(s.drop_last()) + (if s.last().state == TaskState::Running { 1nat } else { 0nat })
    }
}

/// Every task of the sequence is pending.
pub open spec fn all_pending(s: Seq<ScanTask>) -> bool {
    forall|i: int| 0 <= i < s.len() ==> (#[trigger] s[i]).state == TaskState::Pending
}

proof fn lemma_no_running_in_pending(s: Seq<ScanTask>)
    requires
        all_pending(s),
    ensures
        running_count(s) == 0,
    decreases s.len(),
{
    if s.len() > 0 {
        assert(all_pending(s.drop_last())) by {
            assert forall|i: int| 0 <= i < s.drop_last().len() implies (#[trigger] s.drop_last()[i]).state == TaskState::Pending by {
                assert(s.drop_last()[i] == s[i]);
            }
        }
        lemma_no_running_in_pending(s.drop_last());
        assert(s.last() == s[s.len() - 1]);
    }
}

proof fn lemma_insert_by_priority(q: Seq<ScanTask>, t: ScanTask)
    requires
        by_priority(q),
    ensures
        by_priority(q.insert(slot_for(q, t.priority) as int, t)),
{
    lemma_slot_bounds(q, t.priority);
    let k = slot_for(q, t.priority) as int;
    let r = q.insert(k, t);
    assert forall|i: int, j: int| 0 <= i < j < r.len() implies r[i].priority.rank() >= r[j].priority.rank() by {
        if k < q.len() {
            assert(q[k].priority.rank() < t.priority.rank());
        }
        if i < k && j == k {
        } else if i < k && j > k {
            assert(r[j] == q[j - 1]);
        } else if i == k && j > k {
            assert(r[j] == q[j - 1]);
            assert(q[k].priority.rank() >= q[j - 1].priority.rank());
        } else if i > k {
            assert(r[i] == q[i - 1]);
            assert(r[j] == q[j - 1]);
        }
    }
}

proof fn lemma_drop_first_by_priority(q: Seq<ScanTask>)
    requires
        by_priority(q),
        all_pending(q),
        q.len() > 0,
    ensures
        by_priority(q.drop_first()),
        all_pending(q.drop_first()),
{
    assert forall|i: int, j: int| 0 <= i < j < q.drop_first().len() implies q.drop_first()[i].priority.rank() >= q.drop_first()[j].priority.rank() by {
        assert(q.drop_first()[i] == q[i + 1]);
        assert(q.drop_first()[j] == q[j + 1]);
    }
    assert forall|i: int| 0 <= i < q.drop_first().len() implies (#[trigger] q.drop_first()[i]).state == TaskState::Pending by {
        assert(q.drop_first()[i] == q[i + 1]);
    }
}

proof fn lemma_filter_keeps(q: Seq<ScanTask>, id: Seq<char>)
    requires
        by_priority(q),
        all_pending(q),
    ensures
        by_priority(q.filter(other_than(id))),
        all_pending(q.filter(other_than(id))),
        forall|i: int| 0 <= i < q.filter(other_than(id)).len() ==> (#[trigger] q.filter(other_than(id))[i]).id@ != id,
    decreases q.len(),
{
    reveal(Seq::filter);
    let f = other_than(id);
    if q.len() > 0 {
        let d = q.drop_last();
        assert(by_priority(d));
        assert(all_pending(d)) by {
            assert forall|i: int| 0 <= i < d.len() implies (#[trigger] d[i]).state == TaskState::Pending by {
                assert(d[i] == q[i]);
            }
        }
        lemma_filter_keeps(d, id);
        let fd = d.filter(f);
        if f(q.last()) {
            let r = fd.push(q.last());
            assert(q.filter(f) == r);
            fd.filter_lemma(f);
            assert forall|i: int| 0 <= i < fd.len() implies #[trigger] q.contains(fd[i]) by {
                assert(fd.contains(fd[i]));
                d.lemma_filter_contains_rev(f, fd[i]);
                let w = choose|w: int| 0 <= w < d.len() && d[w] == fd[i];
                assert(q[w] == fd[i]);
            }
            assert forall|i: int, j: int| 0 <= i < j < r.len() implies r[i].priority.rank() >= r[j].priority.rank() by {
                if j == r.len() - 1 {
                    assert(q.contains(fd[i]));
                    let w = choose|w: int| 0 <= w < q.len() && q[w] == fd[i];
                    if w < q.len() - 1 {
                        assert(q[w].priority.rank() >= q[q.len() - 1].priority.rank());
                    }
                }
            }
            assert forall|i: int| 0 <= i < r.len() implies (#[trigger] r[i]).state == TaskState::Pending by {
                if i < r.len() - 1 {
                    assert(r[i] == fd[i]);
                } else {
                    assert(q[q.len() - 1].state == TaskState::Pending);
                }
            }
        } else {
            assert(q.filter(f) == fd);
        }
    }
}

/// Decisions of the scan engine's command loop: the pending queue, the one
/// running task and the shared cancel flag. The host performs what the
/// results ask for (spawning a worker for a dispatched task) and reports
/// back when a worker completes.
#[derive(Debug)]
pub struct EngineCore {
    tasks: TaskQueue,
    cancel_flag: bool,
    stopping: Option<String>,
}

/// Effect of "process next": a no-op while a task runs, while a cancelled
/// task's worker has not yet stopped, or while nothing is pending; otherwise
/// the front task becomes the running one, the cancel flag is lowered, and
/// the task is handed out for execution.
pub open spec fn dispatch_effect(
    pending: Seq<ScanTask>,
    running: Option<ScanTask>,
    stopping: bool,
    flag: bool,
    next_pending: Seq<ScanTask>,
    next_running: Option<ScanTask>,
    next_flag: bool,
    r: Option<ScanTask>,
) -> bool {
    if running is Some || stopping || pending.len() == 0 {
        &&& r is None
        &&& next_pending == pending
        &&& next_running == running
        &&& next_flag == flag
    } else {
        &&& r == Some(as_running(pending[0]))
        &&& next_running == r
        &&& next_pending == pending.drop_first()
        &&& !next_flag
    }
}

impl EngineCore {
    /// Pending tasks, front first.
    pub closed spec fn pending(&self) -> Seq<ScanTask> {
        self.tasks.pending()
    }

    /// The running task.
    pub closed spec fn running(&self) -> Option<ScanTask> {
        self.tasks.running()
    }

    /// Whether the cancel flag is raised.
    pub closed spec fn flag(&self) -> bool {
        self.cancel_flag
    }

    /// The task cancelled while running whose worker has not reported back.
    pub closed spec fn stopping(&self) -> Option<Seq<char>> {
        match self.stopping {
            Some(s) => Some(s@),
            None => None,
        }
    }

    /// Workers that may be scanning: the running task's and a cancelled
    /// task's that has not yet stopped.
    pub open spec fn live_workers(&self) -> int {
        (if self.running() is Some { 1int } else { 0int }) + (if self.stopping() is Some { 1int } else { 0int })
    }

    /// Every task the engine knows: the pending ones, then the running one.
    pub open spec fn all_tasks(&self) -> Seq<ScanTask> {
        match self.running() {
            Some(t) => self.pending().push(t),
            None => self.pending(),
        }
    }

    /// Pending tasks are ordered by priority and pending; the running task
    /// is running.
    pub open spec fn wf(&self) -> bool {
        &&& by_priority(self.pending())
        &&& all_pending(self.pending())
        &&& (self.running() matches Some(t) ==> t.state == TaskState::Running)
        &&& !(self.running() is Some && self.stopping() is Some)
    }

    /// An engine with nothing queued or running.
    pub fn new() -> (r: Self)
        ensures
            r.wf(),
            r.pending().len() == 0,
            r.running() is None,
            r.stopping() is None,
            !r.flag(),
    {
        EngineCore { tasks: TaskQueue::new(), cancel_flag: false, stopping: None }
    }

    /// Process-next: when no task runs, the front pending task starts.
    pub fn dispatch_next(&mut self) -> (r: Option<ScanTask>)
        requires
            old(self).wf(),
        ensures
            final(self).wf(),
            final(self).stopping() == old(self).stopping(),
            dispatch_effect(old(self).pending(), old(self).running(), old(self).stopping() is Some, old(self).flag(),
                final(self).pending(), final(self).running(), final(self).flag(), r),
    {
        if self.tasks.current().is_some() || self.stopping.is_some() {
            return None;
        }
        match self.tasks.pop() {
            None => None,
            Some(t) => {
                proof {
                    lemma_drop_first_by_priority(old(self).pending());
                }
                let mut t = t;
                t.state = TaskState::Running;
                let handed = t.duplicate();
                self.tasks.set_current(t);
                self.cancel_flag = false;
                Some(handed)
            },
        }
    }

    /// Queues a task as pending and dispatches if nothing runs; returns the
    /// task's identifier and the task to start, if one starts.
    pub fn submit(&mut self, task: ScanTask) -> (r: (TaskId, Option<ScanTask>))
        requires
            old(self).wf(),
        ensures
            final(self).wf(),
            r.0@ == task.id@,
            final(self).stopping() == old(self).stopping(),
            dispatch_effect(
                old(self).pending().insert(slot_for(old(self).pending(), task.priority) as int, as_pending(task)),
                old(self).running(), old(self).stopping() is Some, old(self).flag(),
                final(self).pending(), final(self).running(), final(self).flag(), r.1),
    {
        let id = task.id.clone();
        let mut task = task;
        task.state = TaskState::Pending;
        proof {
            lemma_insert_by_priority(self.tasks.pending(), task);
            lemma_slot_bounds(self.tasks.pending(), task.priority);
            let q = self.tasks.pending();
            let k = slot_for(q, task.priority) as int;
            assert forall|i: int| 0 <= i < q.insert(k, task).len() implies (#[trigger] q.insert(k, task)[i]).state == TaskState::Pending by {
                if i > k {
                    assert(q.insert(k, task)[i] == q[i - 1]);
                }
            }
        }
        self.tasks.push(task);
        let started = self.dispatch_next();
        (id, started)
    }

    /// Raises the cancel flag; empties the running slot when it holds the
    /// task; drops it from the pending tasks. True when anything matched.
    pub fn cancel(&mut self, task_id: &str) -> (r: bool)
        requires
            old(self).wf(),
        ensures
            final(self).wf(),
            final(self).flag(),
            final(self).pending() == old(self).pending().filter(other_than(task_id@)),
            (old(self).running() matches Some(t) && t.id@ == task_id@) ==> final(self).running() is None
                && final(self).stopping() == Some(task_id@),
            !(old(self).running() matches Some(t) && t.id@ == task_id@) ==> final(self).running() == old(self).running()
                && final(self).stopping() == old(self).stopping(),
            r == ((old(self).running() matches Some(t) && t.id@ == task_id@)
                || exists|i: int| 0 <= i < old(self).pending().len() && old(self).pending()[i].id@ == task_id@),
    {
        self.cancel_flag = true;
        let is_current = match self.tasks.current() {
            Some(t) => same_text(t.id.as_str(), task_id),
            None => false,
        };
        if is_current {
            self.tasks.take_current();
            self.stopping = Some(task_id.to_owned());
        }
        let queued = self.tasks.find_pending(task_id).is_some();
        proof {
            lemma_filter_keeps(self.tasks.pending(), task_id@);
        }
        let _ = self.tasks.cancel(task_id);
        is_current || queued
    }

    /// Raises the cancel flag when the task is the running one; true then.
    pub fn pause(&mut self, task_id: &str) -> (r: bool)
        requires
            old(self).wf(),
        ensures
            final(self).wf(),
            r == (old(self).running() matches Some(t) && t.id@ == task_id@),
            final(self).flag() == (old(self).flag() || r),
            final(self).pending() == old(self).pending(),
            final(self).running() == old(self).running(),
            final(self).stopping() == old(self).stopping(),
    {
        let is_current = match self.tasks.current() {
            Some(t) => same_text(t.id.as_str(), task_id),
            None => false,
        };
        if is_current {
            self.cancel_flag = true;
        }
        is_current
    }

    /// Lowers the cancel flag and dispatches the next task.
    pub fn resume(&mut self) -> (r: Option<ScanTask>)
        requires
            old(self).wf(),
        ensures
            final(self).wf(),
            final(self).stopping() == old(self).stopping(),
            dispatch_effect(old(self).pending(), old(self).running(), old(self).stopping() is Some, false,
                final(self).pending(), final(self).running(), final(self).flag(), r),
    {
        self.cancel_flag = false;
        self.dispatch_next()
    }

    /// A worker finished the task: the running slot is emptied when it holds
    /// that task, the task stops counting as stopping when it was the
    /// cancelled one, and unless a cancel or pause is pending, the next task
    /// is dispatched.
    pub fn finish(&mut self, task_id: &str) -> (r: Option<ScanTask>)
        requires
            old(self).wf(),
        ensures
            final(self).wf(),
            ({
                let running = if (old(self).running() matches Some(t) && t.id@ == task_id@) {
                    None
                } else {
                    old(self).running()
                };
                let stopping = if !(old(self).running() matches Some(t) && t.id@ == task_id@)
                    && old(self).stopping() == Some(task_id@) {
                    None
                } else {
                    old(self).stopping()
                };
                &&& final(self).stopping() == stopping
                &&& if old(self).flag() {
                    r is None && final(self).pending() == old(self).pending()
                        && final(self).running() == running && final(self).flag()
                } else {
                    dispatch_effect(old(self).pending(), running, stopping is Some, false,
                        final(self).pending(), final(self).running(), final(self).flag(), r)
                }
            }),
    {
        let is_current = match self.tasks.current() {
            Some(t) => same_text(t.id.as_str(), task_id),
            None => false,
        };
        if is_current {
            self.tasks.take_current();
        } else {
            let was_stopping = match &self.stopping {
                Some(s) => same_text(s.as_str(), task_id),
                None => false,
            };
            if was_stopping {
                self.stopping = None;
            }
        }
        if self.cancel_flag {
            None
        } else {
            self.dispatch_next()
        }
    }

    /// A copy of the task with the given identifier, running or pending.
    pub fn get_task(&self, task_id: &str) -> (r: Option<ScanTask>)
        requires
            self.wf(),
        ensures
            (self.running() matches Some(t) && t.id@ == task_id@) ==> r == self.running(),
            !(self.running() matches Some(t) && t.id@ == task_id@) ==> (r matches Some(t) ==> self.pending().contains(t) && t.id@ == task_id@),
            r is None <==> !(self.running() matches Some(t) && t.id@ == task_id@)
                && forall|i: int| 0 <= i < self.pending().len() ==> self.pending()[i].id@ != task_id@,
    {
        if let Some(t) = self.tasks.current() {
            if same_text(t.id.as_str(), task_id) {
                return Some(t.duplicate());
            }
        }
        match self.tasks.find_pending(task_id) {
            Some(t) => Some(t.duplicate()),
            None => None,
        }
    }

    /// Copies of all tasks: the pending ones, front first, then the running one.
    pub fn list_tasks(&self) -> (r: Vec<ScanTask>)
        ensures
            r@ == self.all_tasks(),
    {
        let mut out: Vec<ScanTask> = Vec::new();
        let n = self.tasks.len();
        let mut i: usize = 0;
        while i < n
            invariant
                n == self.tasks.pending().len(),
                0 <= i <= n,
                out@ == self.tasks.pending().subrange(0, i as int),
            decreases n - i,
        {
            let t = self.tasks.nth(i);
            out.push(t.duplicate());
            assert(self.tasks.pending().subrange(0, i as int + 1) =~= self.tasks.pending().subrange(0, i as int).push(self.tasks.pending()[i as int]));
            i += 1;
        }
        assert(self.tasks.pending().subrange(0, n as int) =~= self.tasks.pending());
        if let Some(t) = self.tasks.current() {
            out.push(t.duplicate());
        }
        out
    }

    /// Whether a cancel or pause asked the running worker to stop.
    pub fn cancel_requested(&self) -> (r: bool)
        ensures
            r == self.flag(),
    {
        self.cancel_flag
    }
}

/// At any moment at most one task is running: in every state the engine's
/// operations can reach, the tasks it lists hold at most one running task,
/// and at most one worker may be scanning (a cancelled task's worker must
/// report back before the next task is dispatched).
pub proof fn lemma_single_active(core: &EngineCore)
    requires
        core.wf(),
    ensures
        running_count(core.all_tasks()) <= 1,
        core.live_workers() <= 1,
{
    lemma_no_running_in_pending(core.pending());
    if let Some(t) = core.running() {
        assert(core.all_tasks().drop_last() =~= core.pending());
    }
}

/// Dispatch order: in a queue kept by priority the front task has the
/// highest priority (so a pending high-priority task leaves before a
/// low-priority one), and a newly queued task goes behind every queued task
/// of equal priority.
pub proof fn lemma_priority_dispatch(q: Seq<ScanTask>, t: ScanTask)
    requires
        by_priority(q),
    ensures
        q.len() > 0 ==> forall|i: int| 0 <= i < q.len() ==> q[0].priority.rank() >= (#[trigger] q[i]).priority.rank(),
        (exists|i: int| 0 <= i < q.len() && (#[trigger] q[i]).priority == TaskPriority::High) ==> q[0].priority == TaskPriority::High,
        by_priority(q.insert(slot_for(q, t.priority) as int, t)),
        forall|j: int| 0 <= j < q.len() && (#[trigger] q[j]).priority == t.priority ==> j < slot_for(q, t.priority),
        forall|j: int| 0 <= j < slot_for(q, t.priority) ==> q.insert(slot_for(q, t.priority) as int, t)[j] == q[j],
{
    lemma_insert_by_priority(q, t);
    lemma_slot_bounds(q, t.priority);
    let k = slot_for(q, t.priority) as int;
    assert forall|j: int| 0 <= j < q.len() && (#[trigger] q[j]).priority == t.priority implies j < k by {
        if j >= k {
            assert(k < q.len());
            assert(q[k].priority.rank() >= q[j].priority.rank());
        }
    }
    if exists|i: int| 0 <= i < q.len() && (#[trigger] q[i]).priority == TaskPriority::High {
        let i = choose|i: int| 0 <= i < q.len() && (#[trigger] q[i]).priority == TaskPriority::High;
        if i > 0 {
            assert(q[0].priority.rank() >= q[i].priority.rank());
        }
    }
}

} // verus!
