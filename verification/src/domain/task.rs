//! Completed tasks and the running (active) task from which they are made.

use crate::domain::ids::{ProjectId, TaskId};
use vstd::prelude::*;

verus! {

/// What a completed task is.
pub struct TaskView {
    pub id: Seq<char>,
    pub project_id: Seq<char>,
    pub name: Option<Seq<char>>,
    pub started: i64,
    pub ended: i64,
    pub note: Seq<char>,
}

/// What a running task is. `checkpoint` is the last persisted moment of work,
/// or the moment of pausing while `paused`.
pub struct ActiveView {
    pub id: Seq<char>,
    pub project_id: Seq<char>,
    pub started: i64,
    pub checkpoint: i64,
    pub paused: bool,
}

/// The recorded length of a completed task, in seconds.
pub open spec fn duration(t: TaskView) -> int {
    t.ended - t.started
}

/// Seconds of work an active task has accumulated by `timestamp`; time spent
/// paused does not count.
pub open spec fn elapsed(a: ActiveView, timestamp: int) -> int {
    a.checkpoint - a.started + if a.paused {
        0
    } else {
        timestamp - a.checkpoint
    }
}

/// Whether computing `elapsed(a, timestamp)` stays within `i64`.
pub open spec fn elapsed_fits(a: ActiveView, timestamp: i64) -> bool {
    &&& i64::MIN <= a.checkpoint - a.started <= i64::MAX
    &&& !a.paused ==> i64::MIN <= timestamp - a.checkpoint <= i64::MAX
    &&& i64::MIN <= elapsed(a, timestamp as int) <= i64::MAX
}

/// A task that starts running at `timestamp`.
pub open spec fn fresh_active(id: Seq<char>, project_id: Seq<char>, timestamp: i64) -> ActiveView {
    ActiveView { id, project_id, started: timestamp, checkpoint: timestamp, paused: false }
}

/// The task after recording work through `timestamp`; a paused task is unchanged.
pub open spec fn checkpointed(a: ActiveView, timestamp: i64) -> ActiveView {
    if a.paused {
        a
    } else {
        ActiveView { checkpoint: timestamp, ..a }
    }
}

/// Whether resuming `a` at `timestamp` keeps its shifted start within `i64`.
pub open spec fn toggle_fits(a: ActiveView, timestamp: i64) -> bool {
    a.paused ==> {
        &&& i64::MIN <= timestamp - a.checkpoint <= i64::MAX
        &&& i64::MIN <= a.started + (timestamp - a.checkpoint) <= i64::MAX
    }
}

/// The task after pausing or resuming at `timestamp`. Resuming moves the start
/// forward by the paused interval, so the interval is not counted.
pub open spec fn toggled(a: ActiveView, timestamp: i64) -> ActiveView {
    if a.paused {
        ActiveView {
            started: (a.started + (timestamp - a.checkpoint)) as i64,
            checkpoint: timestamp,
            paused: false,
            ..a
        }
    } else {
        ActiveView { checkpoint: timestamp, paused: true, ..a }
    }
}

/// The task paused at `timestamp`, or unchanged when already paused.
pub open spec fn paused_at(a: ActiveView, timestamp: i64) -> ActiveView {
    if a.paused {
        a
    } else {
        toggled(a, timestamp)
    }
}

/// A completed task made from `a` with the given end.
pub open spec fn ended_at(a: ActiveView, ended: i64) -> TaskView {
    TaskView {
        id: a.id,
        project_id: a.project_id,
        name: None,
        started: a.started,
        ended,
        note: Seq::empty(),
    }
}

/// The completed task for finishing `a` at `timestamp`: a paused task ends
/// where it was paused.
pub open spec fn completed(a: ActiveView, timestamp: i64) -> TaskView {
    ended_at(a, if a.paused { a.checkpoint } else { timestamp })
}

/// The completed task for work restored after a restart: it ends at its last
/// checkpoint, so time while the application was not running is excluded.
pub open spec fn recovered(a: ActiveView) -> TaskView {
    ended_at(a, a.checkpoint)
}

/// A completed work session.
#[derive(Debug)]
pub struct Task {
    id: TaskId,
    project_id: ProjectId,
    name: Option<String>,
    started: i64,
    ended: i64,
    note: String,
}

pub open spec fn opt_string_view(s: Option<String>) -> Option<Seq<char>> {
    match s {
        Some(v) => Some(v@),
        None => None,
    }
}

impl View for Task {
    type V = TaskView;

    closed spec fn view(&self) -> TaskView {
        TaskView {
            id: self.id@,
            project_id: self.project_id@,
            name: opt_string_view(self.name),
            started: self.started,
            ended: self.ended,
            note: self.note@,
        }
    }
}

fn clone_opt_string(s: &Option<String>) -> (r: Option<String>)
    ensures
        opt_string_view(r) == opt_string_view(*s),
{
    match s {
        Some(v) => Some(v.clone()),
        None => None,
    }
}

impl Clone for Task {
    fn clone(&self) -> (r: Self)
        ensures
            r@ == self@,
    {
        Task {
            id: self.id.clone(),
            project_id: self.project_id.clone(),
            name: clone_opt_string(&self.name),
            started: self.started,
            ended: self.ended,
            note: self.note.clone(),
        }
    }
}

impl Task {
    /// A completed task made from a running one, ending at `ended`.
    pub fn from_active(active: ActiveTask, ended: i64) -> (r: Task)
        ensures
            r@ == ended_at(active@, ended),
    {
        let r = Task {
            id: active.id,
            project_id: active.project_id,
            name: None,
            started: active.started,
            ended,
            note: String::new(),
        };
        assert(r@.note =~= Seq::<char>::empty());
        r
    }

    /// Reconstructs a task from stored values.
    pub fn from_storage(
        id: TaskId,
        project_id: ProjectId,
        name: Option<String>,
        started: i64,
        ended: i64,
        note: String,
    ) -> (r: Task)
        ensures
            r@ == (TaskView {
                id: id@,
                project_id: project_id@,
                name: opt_string_view(name),
                started,
                ended,
                note: note@,
            }),
    {
        Task { id, project_id, name, started, ended, note }
    }

    pub fn id(&self) -> (r: &TaskId)
        ensures
            r@ == self@.id,
    {
        &self.id
    }

    pub fn name(&self) -> (r: Option<&str>)
        ensures
            r matches Some(n) ==> self@.name == Some(n@),
            r is None ==> self@.name is None,
    {
        match &self.name {
            Some(n) => Some(n.as_str()),
            None => None,
        }
    }

    pub fn project_id(&self) -> (r: &ProjectId)
        ensures
            r@ == self@.project_id,
    {
        &self.project_id
    }

    pub fn started(&self) -> (r: i64)
        ensures
            r == self@.started,
    {
        self.started
    }

    pub fn ended(&self) -> (r: i64)
        ensures
            r == self@.ended,
    {
        self.ended
    }

    pub fn note(&self) -> (r: &str)
        ensures
            r@ == self@.note,
    {
        self.note.as_str()
    }

    pub fn set_note(&mut self, note: String)
        ensures
            final(self)@ == (TaskView { note: note@, ..old(self)@ }),
    {
        self.note = note;
    }
}

/// The task currently being tracked, or a primary task paused by an interruption.
#[derive(Debug)]
pub struct ActiveTask {
    id: TaskId,
    project_id: ProjectId,
    started: i64,
    checkpoint: i64,
    paused: bool,
}

impl View for ActiveTask {
    type V = ActiveView;

    closed spec fn view(&self) -> ActiveView {
        ActiveView {
            id: self.id@,
            project_id: self.project_id@,
            started: self.started,
            checkpoint: self.checkpoint,
            paused: self.paused,
        }
    }
}

impl Clone for ActiveTask {
    fn clone(&self) -> (r: Self)
        ensures
            r@ == self@,
    {
        ActiveTask {
            id: self.id.clone(),
            project_id: self.project_id.clone(),
            started: self.started,
            checkpoint: self.checkpoint,
            paused: self.paused,
        }
    }
}

impl ActiveTask {
    /// A task that starts running at `timestamp`.
    pub fn new(id: TaskId, project_id: ProjectId, timestamp: i64) -> (r: ActiveTask)
        ensures
            r@ == fresh_active(id@, project_id@, timestamp),
    {
        ActiveTask { id, project_id, started: timestamp, checkpoint: timestamp, paused: false }
    }

    /// Reconstructs a running task from stored values.
    pub fn from_storage(
        id: TaskId,
        project_id: ProjectId,
        started: i64,
        checkpoint: i64,
        paused: bool,
    ) -> (r: ActiveTask)
        ensures
            r@ == (ActiveView { id: id@, project_id: project_id@, started, checkpoint, paused }),
    {
        ActiveTask { id, project_id, started, checkpoint, paused }
    }

    pub fn id(&self) -> (r: &TaskId)
        ensures
            r@ == self@.id,
    {
        &self.id
    }

    pub fn project_id(&self) -> (r: &ProjectId)
        ensures
            r@ == self@.project_id,
    {
        &self.project_id
    }

    pub fn started(&self) -> (r: i64)
        ensures
            r == self@.started,
    {
        self.started
    }

    pub fn checkpoint(&self) -> (r: i64)
        ensures
            r == self@.checkpoint,
    {
        self.checkpoint
    }

    pub fn paused(&self) -> (r: bool)
        ensures
            r == self@.paused,
    {
        self.paused
    }

    /// Seconds of work by `timestamp`, excluding paused time.
    pub fn elapsed_until(&self, timestamp: i64) -> (r: i64)
        requires
            elapsed_fits(self@, timestamp),
        ensures
            r == elapsed(self@, timestamp as int),
    {
        self.checkpoint - self.started + if self.paused {
            0
        } else {
            timestamp - self.checkpoint
        }
    }

    /// Records work through `timestamp`; a paused task is left unchanged and
    /// `false` is returned.
    pub fn checkpoint_at(&mut self, timestamp: i64) -> (r: bool)
        ensures
            r == !old(self)@.paused,
            final(self)@ == checkpointed(old(self)@, timestamp),
    {
        if self.paused {
            return false;
        }
        self.checkpoint = timestamp;
        true
    }

    /// Pauses a running task, or resumes a paused one without counting the pause.
    pub fn toggle_pause(&mut self, timestamp: i64)
        requires
            toggle_fits(old(self)@, timestamp),
        ensures
            final(self)@ == toggled(old(self)@, timestamp),
    {
        if self.paused {
            self.started = self.started + (timestamp - self.checkpoint);
            self.checkpoint = timestamp;
            self.paused = false;
        } else {
            self.checkpoint = timestamp;
            self.paused = true;
        }
    }

    /// The completed task for finishing at `timestamp`.
    pub fn into_task(self, timestamp: i64) -> (r: Task)
        ensures
            r@ == completed(self@, timestamp),
    {
        let ended = if self.paused {
            self.checkpoint
        } else {
            timestamp
        };
        Task::from_active(self, ended)
    }

    /// The completed task for work restored after a restart, ending at the last checkpoint.
    pub fn recover(self) -> (r: Task)
        ensures
            r@ == recovered(self@),
    {
        let ended = self.checkpoint;
        Task::from_active(self, ended)
    }
}

} // verus!
