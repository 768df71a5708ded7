//! The aggregate that owns project configuration and tracked work.
//!
//! It is the domain boundary for starting, pausing, finishing, and recovering
//! tracking, as well as for project lifecycle changes.

use crate::domain::ids::{ProjectId, TaskId};
use crate::domain::project::{Project, ProjectView};
use crate::domain::task::{
    ActiveTask, ActiveView, Task, TaskView, checkpointed, completed, fresh_active, paused_at,
    recovered, toggle_fits, toggled,
};
use crate::error::TrackerError;
use crate::text::{
    decimal, lemma_decimal_injective, push_decimal, push_signed, signed_decimal,
};
use vstd::prelude::*;

verus! {

/// What the tracker holds: the projects, the completed tasks in recording
/// order, the running task, and a paused primary task that it interrupted.
pub struct DataView {
    pub projects: Seq<ProjectView>,
    pub tasks: Seq<TaskView>,
    pub active: Option<ActiveView>,
    pub interrupted: Option<ActiveView>,
}

pub open spec fn projects_view(v: Seq<Project>) -> Seq<ProjectView> {
    v.map_values(|p: Project| p@)
}

pub open spec fn tasks_view(v: Seq<Task>) -> Seq<TaskView> {
    v.map_values(|t: Task| t@)
}

pub open spec fn active_view(o: Option<ActiveTask>) -> Option<ActiveView> {
    match o {
        Some(a) => Some(a@),
        None => None,
    }
}

// ----- lookups -----
/// `i` is the position of the first project with identifier `id`.
pub open spec fn is_first_project(ps: Seq<ProjectView>, id: Seq<char>, i: int) -> bool {
    &&& 0 <= i < ps.len()
    &&& ps[i].id == id
    &&& forall|j: int| 0 <= j < i ==> ps[j].id != id
}

/// The position of the first project with identifier `id`, if any.
pub open spec fn project_index(ps: Seq<ProjectView>, id: Seq<char>) -> Option<int> {
    if exists|i: int| is_first_project(ps, id, i) {
        Some(choose|i: int| is_first_project(ps, id, i))
    } else {
        None
    }
}

/// `i` is the position of the first completed task with identifier `id`.
pub open spec fn is_first_task(ts: Seq<TaskView>, id: Seq<char>, i: int) -> bool {
    &&& 0 <= i < ts.len()
    &&& ts[i].id == id
    &&& forall|j: int| 0 <= j < i ==> ts[j].id != id
}

/// The position of the first completed task with identifier `id`, if any.
pub open spec fn task_index(ts: Seq<TaskView>, id: Seq<char>) -> Option<int> {
    if exists|i: int| is_first_task(ts, id, i) {
        Some(choose|i: int| is_first_task(ts, id, i))
    } else {
        None
    }
}

pub proof fn lemma_project_index(ps: Seq<ProjectView>, id: Seq<char>)
    ensures
        project_index(ps, id) matches Some(i) ==> is_first_project(ps, id, i),
        project_index(ps, id) is None ==> forall|j: int| 0 <= j < ps.len() ==> ps[j].id != id,
        forall|i: int| is_first_project(ps, id, i) ==> project_index(ps, id) == Some(i),
{
    if exists|i: int| is_first_project(ps, id, i) {
        let k = choose|i: int| is_first_project(ps, id, i);
        assert forall|i: int| is_first_project(ps, id, i) implies i == k by {
            if i < k {
                assert(ps[i].id != id);
            } else if k < i {
                assert(ps[k].id != id);
            }
        }
    } else {
        assert forall|j: int| 0 <= j < ps.len() implies ps[j].id != id by {
            if ps[j].id == id {
                lemma_first_match_exists(ps, id, j);
            }
        }
    }
}

proof fn lemma_first_match_exists(ps: Seq<ProjectView>, id: Seq<char>, j: int)
    requires
        0 <= j < ps.len(),
        ps[j].id == id,
    ensures
        exists|i: int| is_first_project(ps, id, i),
    decreases j,
{
    if exists|k: int| 0 <= k < j && ps[k].id == id {
        let k = choose|k: int| 0 <= k < j && ps[k].id == id;
        lemma_first_match_exists(ps, id, k);
    } else {
        assert(is_first_project(ps, id, j));
    }
}

proof fn lemma_first_task_exists(ts: Seq<TaskView>, id: Seq<char>, j: int)
    requires
        0 <= j < ts.len(),
        ts[j].id == id,
    ensures
        exists|i: int| is_first_task(ts, id, i),
    decreases j,
{
    if exists|k: int| 0 <= k < j && ts[k].id == id {
        let k = choose|k: int| 0 <= k < j && ts[k].id == id;
        lemma_first_task_exists(ts, id, k);
    } else {
        assert(is_first_task(ts, id, j));
    }
}

pub proof fn lemma_task_index(ts: Seq<TaskView>, id: Seq<char>)
    ensures
        task_index(ts, id) matches Some(i) ==> is_first_task(ts, id, i),
        task_index(ts, id) is None ==> forall|j: int| 0 <= j < ts.len() ==> ts[j].id != id,
        forall|i: int| is_first_task(ts, id, i) ==> task_index(ts, id) == Some(i),
{
    if exists|i: int| is_first_task(ts, id, i) {
        let k = choose|i: int| is_first_task(ts, id, i);
        assert forall|i: int| is_first_task(ts, id, i) implies i == k by {
            if i < k {
                assert(ts[i].id != id);
            } else if k < i {
                assert(ts[k].id != id);
            }
        }
    } else {
        assert forall|j: int| 0 <= j < ts.len() implies ts[j].id != id by {
            if ts[j].id == id {
                lemma_first_task_exists(ts, id, j);
            }
        }
    }
}

/// The display name for a project identifier: the name of the first project
/// with that identifier, or "Deleted project" when none remains.
pub open spec fn project_name_of(d: DataView, id: Seq<char>) -> Seq<char> {
    match project_index(d.projects, id) {
        Some(i) => d.projects[i].name,
        None => "Deleted project"@,
    }
}


// ----- task identifiers -----
/// The identifier tried for the `sequence`-th task started at `timestamp`:
/// `task-{timestamp}-{sequence}`.
pub open spec fn task_id_candidate(timestamp: i64, sequence: nat) -> Seq<char> {
    "task-"@ + signed_decimal(timestamp as int) + "-"@ + decimal(sequence)
}

/// Whether a completed task, the active task, or the interrupted task uses `id`.
pub open spec fn id_in_use(d: DataView, id: Seq<char>) -> bool {
    ||| exists|i: int| 0 <= i < d.tasks.len() && d.tasks[i].id == id
    ||| d.active matches Some(a) && a.id == id
    ||| d.interrupted matches Some(a) && a.id == id
}

pub open spec fn optional_id(o: Option<ActiveView>) -> Seq<Seq<char>> {
    match o {
        Some(a) => seq![a.id],
        None => Seq::empty(),
    }
}

/// Every identifier in use, completed tasks first.
pub open spec fn used_ids(d: DataView) -> Seq<Seq<char>> {
    d.tasks.map_values(|t: TaskView| t.id) + optional_id(d.active) + optional_id(d.interrupted)
}

/// `id` is the identifier given to a task started at `timestamp`: the first
/// candidate, counting from one, that nothing uses yet.
pub open spec fn is_next_task_id(d: DataView, timestamp: i64, id: Seq<char>) -> bool {
    exists|s: nat|
        #![trigger task_id_candidate(timestamp, s)]
        {
            &&& s >= 1
            &&& id == task_id_candidate(timestamp, s)
            &&& !id_in_use(d, id)
            &&& forall|k: nat|
                1 <= k < s ==> #[trigger] id_in_use(d, task_id_candidate(timestamp, k))
        }
}

pub proof fn lemma_used_ids(d: DataView, id: Seq<char>)
    ensures
        id_in_use(d, id) <==> used_ids(d).contains(id),
{
    let ids = d.tasks.map_values(|t: TaskView| t.id);
    let all = used_ids(d);
    if id_in_use(d, id) {
        if exists|i: int| 0 <= i < d.tasks.len() && d.tasks[i].id == id {
            let i = choose|i: int| 0 <= i < d.tasks.len() && d.tasks[i].id == id;
            assert(all[i] == id);
        } else if d.active matches Some(a) && a.id == id {
            assert(all[ids.len() as int] == id);
        } else {
            assert(all[all.len() - 1] == id);
        }
    }
    if all.contains(id) {
        let k = choose|k: int| 0 <= k < all.len() && all[k] == id;
        if k < ids.len() {
            assert(d.tasks[k].id == id);
        } else if k < ids.len() + optional_id(d.active).len() {
            assert(optional_id(d.active)[k - ids.len()] == id);
        } else {
            assert(optional_id(d.interrupted)[k - ids.len() - optional_id(d.active).len()] == id);
        }
    }
}

/// Distinct sequence numbers give distinct candidate identifiers.
pub proof fn lemma_candidate_injective(timestamp: i64, a: nat, b: nat)
    requires
        task_id_candidate(timestamp, a) == task_id_candidate(timestamp, b),
    ensures
        a == b,
{
    let prefix = "task-"@ + signed_decimal(timestamp as int) + "-"@;
    let ca = task_id_candidate(timestamp, a);
    let cb = task_id_candidate(timestamp, b);
    assert(ca.subrange(prefix.len() as int, ca.len() as int) =~= decimal(a));
    assert(cb.subrange(prefix.len() as int, cb.len() as int) =~= decimal(b));
    lemma_decimal_injective(a, b);
}

/// If the first `m` candidates are all in use then at least `m` identifiers are in use.
proof fn lemma_candidates_bounded(d: DataView, timestamp: i64, m: nat)
    requires
        forall|k: nat| 1 <= k <= m ==> #[trigger] id_in_use(d, task_id_candidate(timestamp, k)),
    ensures
        m <= used_ids(d).len(),
{
    let used = used_ids(d);
    let cands = Seq::new(m, |i: int| task_id_candidate(timestamp, (i + 1) as nat));
    assert forall|i: int, j: int| 0 <= i < cands.len() && 0 <= j < cands.len() && i != j implies cands[i]
        != cands[j] by {
        if cands[i] == cands[j] {
            lemma_candidate_injective(timestamp, (i + 1) as nat, (j + 1) as nat);
        }
    }
    assert(cands.no_duplicates());
    cands.unique_seq_to_set();
    assert forall|x: Seq<char>| cands.to_set().contains(x) implies used.to_set().contains(x) by {
        let i = choose|i: int| 0 <= i < cands.len() && cands[i] == x;
        let k = (i + 1) as nat;
        assert(id_in_use(d, task_id_candidate(timestamp, k)));
        lemma_used_ids(d, x);
    }
    used.lemma_cardinality_of_set();
    vstd::set_lib::lemma_len_subset(cands.to_set(), used.to_set());
}


// ----- transitions -----
/// Both running tasks stopped at their last checkpoints and recorded,
/// the interrupted primary task first.
pub open spec fn recover_view(d: DataView) -> DataView {
    let after_interrupted = match d.interrupted {
        Some(b) => d.tasks.push(recovered(b)),
        None => d.tasks,
    };
    let tasks = match d.active {
        Some(a) => after_interrupted.push(recovered(a)),
        None => after_interrupted,
    };
    DataView { tasks, active: None, interrupted: None, ..d }
}

/// A new task for `project_id` running from `timestamp` under `id`; a running
/// task becomes the interrupted one, paused at `timestamp`.
pub open spec fn start_view(d: DataView, project_id: Seq<char>, timestamp: i64, id: Seq<char>) -> DataView {
    DataView {
        active: Some(fresh_active(id, project_id, timestamp)),
        interrupted: match d.active {
            Some(p) => Some(paused_at(p, timestamp)),
            None => None,
        },
        ..d
    }
}

/// The running task records work through `timestamp` unless it is paused.
pub open spec fn checkpoint_view(d: DataView, timestamp: i64) -> DataView {
    match d.active {
        Some(a) => DataView { active: Some(checkpointed(a, timestamp)), ..d },
        None => d,
    }
}

/// The running task pauses or resumes at `timestamp`.
pub open spec fn toggle_view(d: DataView, timestamp: i64) -> DataView {
    match d.active {
        Some(a) => DataView { active: Some(toggled(a, timestamp)), ..d },
        None => d,
    }
}

/// The running task is recorded as finished at `timestamp` and the
/// interrupted primary task, if any, becomes the running task again.
pub open spec fn end_view(d: DataView, timestamp: i64) -> DataView {
    match d.active {
        Some(a) => DataView {
            tasks: d.tasks.push(completed(a, timestamp)),
            active: d.interrupted,
            interrupted: None,
            ..d
        },
        None => d,
    }
}

/// The most recently completed task carries `note`.
pub open spec fn note_last_view(d: DataView, note: Seq<char>) -> DataView {
    if d.tasks.len() > 0 {
        let last = d.tasks.last();
        DataView {
            tasks: d.tasks.update(d.tasks.len() - 1, TaskView { note, ..last }),
            ..d
        }
    } else {
        d
    }
}

/// The first completed task with identifier `id` carries `note`.
pub open spec fn update_note_view(d: DataView, id: Seq<char>, note: Seq<char>) -> DataView {
    match task_index(d.tasks, id) {
        Some(i) => DataView { tasks: d.tasks.update(i, TaskView { note, ..d.tasks[i] }), ..d },
        None => d,
    }
}

/// Every completed task with identifier `id` is gone.
pub open spec fn delete_task_view(d: DataView, id: Seq<char>) -> DataView {
    DataView { tasks: d.tasks.filter(|t: TaskView| t.id != id), ..d }
}

/// A new active project is appended.
pub open spec fn add_project_view(d: DataView, id: Seq<char>, name: Seq<char>) -> DataView {
    DataView { projects: d.projects.push(ProjectView { id, name, archived: false }), ..d }
}

/// The first project with identifier `id` carries `name`.
pub open spec fn rename_view(d: DataView, id: Seq<char>, name: Seq<char>) -> DataView {
    match project_index(d.projects, id) {
        Some(i) => DataView {
            projects: d.projects.update(i, ProjectView { name, ..d.projects[i] }),
            ..d
        },
        None => d,
    }
}

/// The first project with identifier `id` has its archive flag set to `archived`.
pub open spec fn archive_view(d: DataView, id: Seq<char>, archived: bool) -> DataView {
    match project_index(d.projects, id) {
        Some(i) => DataView {
            projects: d.projects.update(i, ProjectView { archived, ..d.projects[i] }),
            ..d
        },
        None => d,
    }
}

/// The project `id`, every task recorded for it, and a running or
/// interrupted task of it are all gone.
pub open spec fn delete_project_view(d: DataView, id: Seq<char>) -> DataView {
    DataView {
        projects: d.projects.filter(|p: ProjectView| p.id != id),
        tasks: d.tasks.filter(|t: TaskView| t.project_id != id),
        active: match d.active {
            Some(a) => if a.project_id == id {
                None
            } else {
                Some(a)
            },
            None => None,
        },
        interrupted: match d.interrupted {
            Some(b) => if b.project_id == id {
                None
            } else {
                Some(b)
            },
            None => None,
        },
    }
}

/// The projects every new installation starts with.
pub open spec fn default_projects() -> Seq<ProjectView> {
    seq![
        ProjectView { id: "project-1"@, name: "Project Atlas"@, archived: false },
        ProjectView { id: "project-2"@, name: "Admin"@, archived: false },
        ProjectView { id: "project-3"@, name: "Writing"@, archived: false },
        ProjectView { id: "project-4"@, name: "Personal"@, archived: false },
    ]
}


/// Owns all projects, completed tasks, and one active task with an optional
/// paused task it interrupted.
///
/// Project deletion also removes its completed work and any matching active
/// task. Archiving, by contrast, retains the project's history.
#[derive(Debug)]
pub struct Data {
    projects: Vec<Project>,
    tasks: Vec<Task>,
    active_task: Option<ActiveTask>,
    interrupted_task: Option<ActiveTask>,
}

impl View for Data {
    type V = DataView;

    closed spec fn view(&self) -> DataView {
        DataView {
            projects: projects_view(self.projects@),
            tasks: tasks_view(self.tasks@),
            active: active_view(self.active_task),
            interrupted: active_view(self.interrupted_task),
        }
    }
}

fn clone_active(a: &Option<ActiveTask>) -> (r: Option<ActiveTask>)
    ensures
        active_view(r) == active_view(*a),
{
    match a {
        Some(task) => Some(task.clone()),
        None => None,
    }
}

impl Clone for Data {
    fn clone(&self) -> (r: Self)
        ensures
            r@ == self@,
    {
        let mut projects: Vec<Project> = Vec::new();
        let mut i: usize = 0;
        while i < self.projects.len()
            invariant
                i <= self.projects.len(),
                projects_view(projects@) == projects_view(self.projects@).take(i as int),
            decreases self.projects.len() - i,
        {
            let project = self.projects[i].clone();
            assert(project@ == self.projects@[i as int]@);
            let ghost before = projects@;
            projects.push(project);
            assert(projects_view(projects@) =~= projects_view(before).push(project@));
            assert(projects_view(projects@) =~= projects_view(self.projects@).take(i + 1));
            i = i + 1;
        }
        assert(projects_view(self.projects@).take(i as int) =~= projects_view(self.projects@));
        let mut tasks: Vec<Task> = Vec::new();
        let mut i: usize = 0;
        while i < self.tasks.len()
            invariant
                i <= self.tasks.len(),
                tasks_view(tasks@) == tasks_view(self.tasks@).take(i as int),
            decreases self.tasks.len() - i,
        {
            let task = self.tasks[i].clone();
            assert(task@ == self.tasks@[i as int]@);
            let ghost before = tasks@;
            tasks.push(task);
            assert(tasks_view(tasks@) =~= tasks_view(before).push(task@));
            assert(tasks_view(tasks@) =~= tasks_view(self.tasks@).take(i + 1));
            i = i + 1;
        }
        assert(tasks_view(self.tasks@).take(i as int) =~= tasks_view(self.tasks@));
        Data {
            projects,
            tasks,
            active_task: clone_active(&self.active_task),
            interrupted_task: clone_active(&self.interrupted_task),
        }
    }
}

fn task_id_text(timestamp: i64, sequence: u64) -> (r: String)
    ensures
        r@ == task_id_candidate(timestamp, sequence as nat),
{
    let mut out = String::from_str("task-");
    push_signed(&mut out, timestamp);
    out.append("-");
    push_decimal(&mut out, sequence);
    out
}

impl Data {
    /// Reconstructs the aggregate from stored records.
    pub fn from_storage(
        projects: Vec<Project>,
        tasks: Vec<Task>,
        active_task: Option<ActiveTask>,
        interrupted_task: Option<ActiveTask>,
    ) -> (r: Data)
        ensures
            r@ == (DataView {
                projects: projects_view(projects@),
                tasks: tasks_view(tasks@),
                active: active_view(active_task),
                interrupted: active_view(interrupted_task),
            }),
    {
        Data { projects, tasks, active_task, interrupted_task }
    }

    /// The initial set of projects with no recorded or active work.
    pub fn defaults() -> (r: Data)
        ensures
            r@ == (DataView {
                projects: default_projects(),
                tasks: Seq::empty(),
                active: None,
                interrupted: None,
            }),
    {
        let mut projects: Vec<Project> = Vec::new();
        projects.push(Project::new(ProjectId::new("project-1"), String::from_str("Project Atlas")));
        projects.push(Project::new(ProjectId::new("project-2"), String::from_str("Admin")));
        projects.push(Project::new(ProjectId::new("project-3"), String::from_str("Writing")));
        projects.push(Project::new(ProjectId::new("project-4"), String::from_str("Personal")));
        let r = Data { projects, tasks: Vec::new(), active_task: None, interrupted_task: None };
        assert(r@.projects =~= default_projects());
        assert(r@.tasks =~= Seq::<TaskView>::empty());
        r
    }

    /// What loading makes of stored data that holds no project: the live
    /// database starts over with the defaults, while a backup without
    /// projects (`require_projects`) is refused.
    pub fn for_empty_store(require_projects: bool) -> (r: Result<Data, TrackerError>)
        ensures
            !require_projects ==> (r matches Ok(d) && d@ == (DataView {
                projects: default_projects(),
                tasks: Seq::empty(),
                active: None,
                interrupted: None,
            })),
            require_projects ==> (r matches Err(e) && e is InvalidBackup),
    {
        if require_projects {
            Err(TrackerError::InvalidBackup)
        } else {
            Ok(Data::defaults())
        }
    }

    pub fn projects(&self) -> (r: &[Project])
        ensures
            projects_view(r@) == self@.projects,
    {
        self.projects.as_slice()
    }

    pub fn tasks(&self) -> (r: &[Task])
        ensures
            tasks_view(r@) == self@.tasks,
    {
        self.tasks.as_slice()
    }

    pub fn active_task(&self) -> (r: Option<&ActiveTask>)
        ensures
            r matches Some(a) ==> self@.active == Some(a@),
            r is None ==> self@.active is None,
    {
        match &self.active_task {
            Some(a) => Some(a),
            None => None,
        }
    }

    pub fn interrupted_task(&self) -> (r: Option<&ActiveTask>)
        ensures
            r matches Some(a) ==> self@.interrupted == Some(a@),
            r is None ==> self@.interrupted is None,
    {
        match &self.interrupted_task {
            Some(a) => Some(a),
            None => None,
        }
    }

    /// Whether the active task temporarily interrupts a paused task.
    pub fn has_interrupted_task(&self) -> (r: bool)
        ensures
            r == self@.interrupted is Some,
    {
        self.interrupted_task.is_some()
    }

    pub fn has_tasks(&self) -> (r: bool)
        ensures
            r == (self@.tasks.len() > 0),
    {
        self.tasks.len() > 0
    }

    fn find_project(&self, id: &ProjectId) -> (r: Option<usize>)
        ensures
            r matches Some(i) ==> is_first_project(self@.projects, id@, i as int),
            r is None ==> project_index(self@.projects, id@) is None,
            r matches Some(i) ==> project_index(self@.projects, id@) == Some(i as int),
    {
        let mut i: usize = 0;
        while i < self.projects.len()
            invariant
                i <= self.projects.len(),
                self@.projects.len() == self.projects.len(),
                forall|j: int| 0 <= j < i ==> self@.projects[j].id != id@,
            decreases self.projects.len() - i,
        {
            assert(self.projects[i as int]@ == self@.projects[i as int]);
            if self.projects[i].id().same(id) {
                proof {
                    lemma_project_index(self@.projects, id@);
                }
                return Some(i);
            }
            i = i + 1;
        }
        proof {
            lemma_project_index(self@.projects, id@);
            if let Some(k) = project_index(self@.projects, id@) {
                assert(self@.projects[k].id == id@);
            }
        }
        None
    }

    fn find_task(&self, id: &TaskId) -> (r: Option<usize>)
        ensures
            r matches Some(i) ==> is_first_task(self@.tasks, id@, i as int),
            r is None ==> task_index(self@.tasks, id@) is None,
            r matches Some(i) ==> task_index(self@.tasks, id@) == Some(i as int),
    {
        let mut i: usize = 0;
        while i < self.tasks.len()
            invariant
                i <= self.tasks.len(),
                self@.tasks.len() == self.tasks.len(),
                forall|j: int| 0 <= j < i ==> self@.tasks[j].id != id@,
            decreases self.tasks.len() - i,
        {
            assert(self.tasks[i as int]@ == self@.tasks[i as int]);
            if self.tasks[i].id().same(id) {
                proof {
                    lemma_task_index(self@.tasks, id@);
                }
                return Some(i);
            }
            i = i + 1;
        }
        proof {
            lemma_task_index(self@.tasks, id@);
            if let Some(k) = task_index(self@.tasks, id@) {
                assert(self@.tasks[k].id == id@);
            }
        }
        None
    }

    /// The completed task with identifier `id`, if one exists.
    pub fn task(&self, id: &TaskId) -> (r: Option<&Task>)
        ensures
            r matches Some(t) ==> (task_index(self@.tasks, id@) matches Some(i) && t@
                == self@.tasks[i]),
            r is None ==> task_index(self@.tasks, id@) is None,
    {
        match self.find_task(id) {
            Some(i) => Some(&self.tasks[i]),
            None => None,
        }
    }

    /// The first project with identifier `id`, if one exists.
    pub fn project(&self, id: &ProjectId) -> (r: Option<&Project>)
        ensures
            r matches Some(p) ==> (project_index(self@.projects, id@) matches Some(i) && p@
                == self@.projects[i]),
            r is None ==> project_index(self@.projects, id@) is None,
    {
        match self.find_project(id) {
            Some(i) => Some(&self.projects[i]),
            None => None,
        }
    }

    /// The project's name, or a display label when its project was deleted.
    pub fn project_name(&self, id: &ProjectId) -> (r: String)
        ensures
            r@ == project_name_of(self@, id@),
    {
        match self.find_project(id) {
            Some(i) => {
                assert(self.projects[i as int]@ == self@.projects[i as int]);
                String::from_str(self.projects[i].name())
            },
            None => String::from_str("Deleted project"),
        }
    }

    fn id_in_use(&self, id: &String) -> (r: bool)
        ensures
            r == id_in_use(self@, id@),
    {
        let mut i: usize = 0;
        while i < self.tasks.len()
            invariant
                i <= self.tasks.len(),
                self@.tasks.len() == self.tasks.len(),
                forall|j: int| 0 <= j < i ==> self@.tasks[j].id != id@,
            decreases self.tasks.len() - i,
        {
            assert(self.tasks[i as int]@ == self@.tasks[i as int]);
            if self.tasks[i].id().0 == *id {
                return true;
            }
            i = i + 1;
        }
        if let Some(active) = &self.active_task {
            if active.id().0 == *id {
                return true;
            }
        }
        if let Some(interrupted) = &self.interrupted_task {
            if interrupted.id().0 == *id {
                return true;
            }
        }
        false
    }

    /// Creates an ID that remains unique when multiple tasks start in the same second.
    ///
    /// Completed work, the visible active task, and a paused interrupted task all
    /// participate in the check because a primary and secondary task may coexist.
    pub fn next_task_id(&self, timestamp: i64) -> (r: TaskId)
        requires
            self@.tasks.len() + 3 <= u64::MAX,
        ensures
            is_next_task_id(self@, timestamp, r@),
    {
        let ghost used = used_ids(self@);
        let mut sequence: u64 = 1;
        loop
            invariant
                1 <= sequence <= used.len() + 1,
                used == used_ids(self@),
                used.len() <= self@.tasks.len() + 2,
                self@.tasks.len() + 3 <= u64::MAX,
                forall|k: nat|
                    1 <= k < sequence ==> #[trigger] id_in_use(self@, task_id_candidate(timestamp, k)),
            decreases used.len() + 1 - sequence,
        {
            let candidate = task_id_text(timestamp, sequence);
            if !self.id_in_use(&candidate) {
                assert(task_id_candidate(timestamp, sequence as nat) == candidate@);
                return TaskId(candidate);
            }
            proof {
                assert forall|k: nat| 1 <= k <= sequence implies #[trigger] id_in_use(
                    self@,
                    task_id_candidate(timestamp, k),
                ) by {
                    if k == sequence {
                        assert(candidate@ == task_id_candidate(timestamp, k));
                    }
                }
                lemma_candidates_bounded(self@, timestamp, sequence as nat);
            }
            sequence = sequence + 1;
        }
    }

    /// Stops restored unfinished work at each task's most recently persisted checkpoint.
    ///
    /// This prevents time spent while the application was not running from
    /// being included in the completed task.
    pub fn recover_active(&mut self)
        ensures
            final(self)@ == recover_view(old(self)@),
    {
        if let Some(interrupted) = self.interrupted_task.take() {
            self.tasks.push(interrupted.recover());
        }
        if let Some(active) = self.active_task.take() {
            self.tasks.push(active.recover());
        }
        assert(self@.tasks =~= recover_view(old(self)@).tasks);
    }

    /// Begins a task or temporarily interrupts the current task.
    ///
    /// Only one interruption level is supported: the active secondary task
    /// must be finished before another task can begin.
    pub fn start_tracking(&mut self, project_id: ProjectId, timestamp: i64) -> (r: Result<
        (),
        TrackerError,
    >)
        requires
            old(self)@.tasks.len() + 3 <= u64::MAX,
        ensures
            r is Err <==> old(self)@.interrupted is Some,
            r matches Err(e) ==> e is SecondaryTaskAlreadyActive && final(self)@ == old(self)@,
            r is Ok ==> (final(self)@.active matches Some(a) && is_next_task_id(
                old(self)@,
                timestamp,
                a.id,
            ) && final(self)@ == start_view(old(self)@, project_id@, timestamp, a.id)),
    {
        if self.interrupted_task.is_some() {
            return Err(TrackerError::SecondaryTaskAlreadyActive);
        }
        let ghost before = self@;
        if let Some(mut primary) = self.active_task.take() {
            if !primary.paused() {
                primary.toggle_pause(timestamp);
            }
            self.interrupted_task = Some(primary);
        }
        proof {
            assert forall|x: Seq<char>| id_in_use(self@, x) == id_in_use(before, x) by {}
            assert(self@.tasks.len() == before.tasks.len());
        }
        let id = self.next_task_id(timestamp);
        let ghost new_id = id@;
        self.active_task = Some(ActiveTask::new(id, project_id, timestamp));
        proof {
            assert(is_next_task_id(before, timestamp, new_id)) by {
                let s = choose|s: nat|
                    #![trigger task_id_candidate(timestamp, s)]
                    {
                        &&& s >= 1
                        &&& new_id == task_id_candidate(timestamp, s)
                        &&& !id_in_use(before, new_id)
                        &&& forall|k: nat|
                            1 <= k < s ==> #[trigger] id_in_use(
                                before,
                                task_id_candidate(timestamp, k),
                            )
                    };
            }
        }
        Ok(())
    }

    /// Records elapsed work through `timestamp` when an unpaused task is active.
    ///
    /// Returns `false` when there is no active task or it is paused.
    pub fn checkpoint_active(&mut self, timestamp: i64) -> (r: bool)
        ensures
            r == (old(self)@.active matches Some(a) && !a.paused),
            final(self)@ == checkpoint_view(old(self)@, timestamp),
    {
        match self.active_task.take() {
            Some(mut active) => {
                let r = active.checkpoint_at(timestamp);
                self.active_task = Some(active);
                r
            },
            None => false,
        }
    }

    /// Pauses or resumes the active task at `timestamp`.
    ///
    /// Returns `false` when there is no active task.
    pub fn toggle_pause(&mut self, timestamp: i64) -> (r: bool)
        requires
            old(self)@.active matches Some(a) ==> toggle_fits(a, timestamp),
        ensures
            r == old(self)@.active is Some,
            final(self)@ == toggle_view(old(self)@, timestamp),
    {
        match self.active_task.take() {
            Some(mut active) => {
                active.toggle_pause(timestamp);
                self.active_task = Some(active);
                true
            },
            None => false,
        }
    }

    /// Converts the active task into a completed task at `timestamp` and makes
    /// a paused primary task active again after its secondary task finishes.
    ///
    /// Returns `false` when no task is active.
    pub fn end_tracking(&mut self, timestamp: i64) -> (r: bool)
        ensures
            r == old(self)@.active is Some,
            final(self)@ == end_view(old(self)@, timestamp),
    {
        let active = match self.active_task.take() {
            Some(active) => active,
            None => {
                return false;
            },
        };
        self.tasks.push(active.into_task(timestamp));
        if let Some(primary) = self.interrupted_task.take() {
            self.active_task = Some(primary);
        }
        assert(self@.tasks =~= end_view(old(self)@, timestamp).tasks);
        true
    }

    /// Replaces the note on the most recently completed task, if there is one.
    pub fn save_task_note(&mut self, note: String)
        ensures
            final(self)@ == note_last_view(old(self)@, note@),
    {
        let len = self.tasks.len();
        if len > 0 {
            let mut task = self.tasks[len - 1].clone();
            task.set_note(note);
            self.tasks.set(len - 1, task);
            assert(self@.tasks =~= note_last_view(old(self)@, note@).tasks);
        }
    }

    /// Replaces one completed task's note, returning whether its identifier was found.
    pub fn update_task_note(&mut self, id: &TaskId, note: String) -> (r: bool)
        ensures
            r == (task_index(old(self)@.tasks, id@) is Some),
            final(self)@ == update_note_view(old(self)@, id@, note@),
    {
        match self.find_task(id) {
            Some(i) => {
                let mut task = self.tasks[i].clone();
                task.set_note(note);
                self.tasks.set(i, task);
                assert(self@.tasks =~= update_note_view(old(self)@, id@, note@).tasks);
                true
            },
            None => false,
        }
    }

    /// Removes one completed task, returning whether its identifier was found.
    pub fn delete_task(&mut self, id: &TaskId) -> (r: bool)
        ensures
            r == (exists|i: int| 0 <= i < old(self)@.tasks.len() && old(self)@.tasks[i].id == id@),
            final(self)@ == delete_task_view(old(self)@, id@),
    {
        let ghost pred = |t: TaskView| t.id != id@;
        let ghost before = self@.tasks;
        let previous_len = self.tasks.len();
        let mut kept: Vec<Task> = Vec::new();
        let mut i: usize = 0;
        while i < self.tasks.len()
            invariant
                i <= self.tasks.len(),
                previous_len == self.tasks.len(),
                before == self@.tasks,
                before.len() == self.tasks.len(),
                pred == (|t: TaskView| t.id != id@),
                tasks_view(kept@) == before.take(i as int).filter(pred),
                kept.len() <= i,
                kept.len() == i <==> forall|j: int| 0 <= j < i ==> before[j].id != id@,
            decreases self.tasks.len() - i,
        {
            assert(self.tasks[i as int]@ == before[i as int]);
            assert(before.take(i + 1).drop_last() =~= before.take(i as int));
            reveal_with_fuel(Seq::filter, 1);
            if !self.tasks[i].id().same(id) {
                kept.push(self.tasks[i].clone());
                assert(tasks_view(kept@) =~= before.take(i + 1).filter(pred));
            } else {
                assert(tasks_view(kept@) =~= before.take(i + 1).filter(pred));
            }
            i = i + 1;
        }
        assert(before.take(i as int) =~= before);
        self.tasks = kept;
        self.tasks.len() != previous_len
    }

    /// Adds an active project with the supplied identifier and name.
    pub fn add_project(&mut self, id: ProjectId, name: String)
        ensures
            final(self)@ == add_project_view(old(self)@, id@, name@),
    {
        self.projects.push(Project::new(id, name));
        assert(self@.projects =~= add_project_view(old(self)@, id@, name@).projects);
    }

    /// Renames the matching project; an unknown identifier leaves the aggregate unchanged.
    pub fn rename_project(&mut self, id: &ProjectId, name: String)
        ensures
            final(self)@ == rename_view(old(self)@, id@, name@),
    {
        if let Some(i) = self.find_project(id) {
            let mut project = self.projects[i].clone();
            project.rename(name);
            self.projects.set(i, project);
            assert(self@.projects =~= rename_view(old(self)@, id@, name@).projects);
        }
    }

    /// Archives the matching project without removing its work history.
    pub fn archive_project(&mut self, id: &ProjectId)
        ensures
            final(self)@ == archive_view(old(self)@, id@, true),
    {
        if let Some(i) = self.find_project(id) {
            let mut project = self.projects[i].clone();
            project.archive();
            self.projects.set(i, project);
            assert(self@.projects =~= archive_view(old(self)@, id@, true).projects);
        }
    }

    /// Restores the matching project to the active lifecycle state.
    pub fn unarchive_project(&mut self, id: &ProjectId)
        ensures
            final(self)@ == archive_view(old(self)@, id@, false),
    {
        if let Some(i) = self.find_project(id) {
            let mut project = self.projects[i].clone();
            project.unarchive();
            self.projects.set(i, project);
            assert(self@.projects =~= archive_view(old(self)@, id@, false).projects);
        }
    }

    /// Removes a project and every task associated with it.
    pub fn delete_project(&mut self, id: &ProjectId)
        ensures
            final(self)@ == delete_project_view(old(self)@, id@),
    {
        let ghost old_view = self@;
        let ghost keep_project = |p: ProjectView| p.id != id@;
        let ghost keep_task = |t: TaskView| t.project_id != id@;
        let mut projects: Vec<Project> = Vec::new();
        let mut i: usize = 0;
        while i < self.projects.len()
            invariant
                i <= self.projects.len(),
                self@ == old_view,
                old_view.projects.len() == self.projects.len(),
                keep_project == (|p: ProjectView| p.id != id@),
                projects_view(projects@) == old_view.projects.take(i as int).filter(keep_project),
            decreases self.projects.len() - i,
        {
            assert(self.projects[i as int]@ == old_view.projects[i as int]);
            assert(old_view.projects.take(i + 1).drop_last() =~= old_view.projects.take(i as int));
            reveal_with_fuel(Seq::filter, 1);
            if !self.projects[i].id().same(id) {
                projects.push(self.projects[i].clone());
            }
            assert(projects_view(projects@) =~= old_view.projects.take(i + 1).filter(keep_project));
            i = i + 1;
        }
        assert(old_view.projects.take(i as int) =~= old_view.projects);
        let mut tasks: Vec<Task> = Vec::new();
        let mut i: usize = 0;
        while i < self.tasks.len()
            invariant
                i <= self.tasks.len(),
                self@ == old_view,
                old_view.tasks.len() == self.tasks.len(),
                keep_task == (|t: TaskView| t.project_id != id@),
                tasks_view(tasks@) == old_view.tasks.take(i as int).filter(keep_task),
            decreases self.tasks.len() - i,
        {
            assert(self.tasks[i as int]@ == old_view.tasks[i as int]);
            assert(old_view.tasks.take(i + 1).drop_last() =~= old_view.tasks.take(i as int));
            reveal_with_fuel(Seq::filter, 1);
            if !self.tasks[i].project_id().same(id) {
                tasks.push(self.tasks[i].clone());
            }
            assert(tasks_view(tasks@) =~= old_view.tasks.take(i + 1).filter(keep_task));
            i = i + 1;
        }
        assert(old_view.tasks.take(i as int) =~= old_view.tasks);
        self.projects = projects;
        self.tasks = tasks;
        let drop_active = match &self.active_task {
            Some(task) => task.project_id().same(id),
            None => false,
        };
        if drop_active {
            self.active_task = None;
        }
        let drop_interrupted = match &self.interrupted_task {
            Some(task) => task.project_id().same(id),
            None => false,
        };
        if drop_interrupted {
            self.interrupted_task = None;
        }
    }
}

} // verus!
