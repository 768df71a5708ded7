//! The decisions behind the window: which page is shown, which status message
//! appears, what the project editor and export screens hold, and when the
//! tracker's data must be saved.
//!
//! Each command changes this state and the tracker, and returns a [`Step`]:
//! either it is finished, or the data must be saved first, after which
//! [`UiController::finish`] is called with the outcome of saving.

use crate::application::{Tracker, TrackerView, new_project_id};
use crate::domain::data::{
    Data, DataView, add_project_view, archive_view, checkpoint_view, delete_project_view,
    delete_task_view, end_view, is_next_task_id, note_last_view, project_index, project_name_of,
    rename_view, start_view, task_index, toggle_view, update_note_view,
};
use crate::domain::ids::ProjectId;
use crate::domain::project::{ProjectView, valid_project_name};
use crate::domain::range::Range;
use crate::domain::task::toggle_fits;
use crate::language::Language;
use crate::presentation::{ProjectItem, ProjectItemView, project_item, settings_item};
use crate::text::trimmed;
use crate::domain::ids::TaskId;
use crate::presentation::{duration_label, format_duration};
use crate::text::trim_str;
use chrono::{Datelike, Local, NaiveDate, NaiveTime, TimeZone, Timelike};
use vstd::prelude::*;

verus! {

/// The pages of the main window.
#[derive(Clone, Copy, Debug, PartialEq, Eq, Structural)]
pub enum Page {
    Home,
    Tracking,
    Note,
    Evaluation,
    Drilldown,
    Settings,
    ProjectEditor,
    Exportpage,
    AdjustTime,
    FirstRun,
}

/// Whether a status message reports success or an error.
#[derive(Clone, Copy, Debug, PartialEq, Eq, Structural)]
pub enum StatusKind {
    Success,
    Error,
}

/// A transient message shown in the status bar.
#[derive(Debug)]
pub struct Status {
    pub message: String,
    pub kind: StatusKind,
}

/// Whether the project editor creates a project or edits one.
#[derive(Clone, Copy, Debug, PartialEq, Eq, Structural)]
pub enum ProjectEditorMode {
    Create,
    Edit,
}

/// The project editor's contents.
#[derive(Debug)]
pub struct ProjectEditorState {
    pub mode: ProjectEditorMode,
    pub draft_name: String,
    pub error: String,
    pub project: ProjectItem,
}

/// The export screen's contents.
#[derive(Debug)]
pub struct ExportState {
    pub project: String,
    pub all_projects: bool,
    pub return_page: Page,
}

/// The stage of the first-run screen.
#[derive(Clone, Copy, Debug, PartialEq, Eq, Structural)]
pub enum FirstRunPhase {
    /// Asking for a first project.
    Create,
    /// A project was created; another may follow, or tracking can begin.
    ChooseNext,
}

/// The first-run screen's contents.
#[derive(Debug)]
pub struct FirstRunState {
    pub phase: FirstRunPhase,
    pub error: String,
    /// The projects created on this screen, in order.
    pub created_projects: Vec<ProjectItem>,
}

/// The data-changing work that waits for the outcome of saving.
#[derive(Clone, Copy, Debug, PartialEq, Eq, Structural)]
pub enum Pending {
    Tick,
    StartTracking,
    EndTracking,
    TogglePause,
    SaveTaskNote,
    UpdateTask,
    DeleteTask,
    ProjectAction,
    FirstRunProject,
}

/// Which view models the window rebuilds after a command.
#[derive(Clone, Copy, Debug, PartialEq, Eq, Structural)]
pub enum Refresh {
    Nothing,
    /// Only the running task's view, so that other pages keep their drafts.
    Tracking,
    Everything,
}

/// What the caller does after a command.
#[derive(Clone, Copy, Debug, PartialEq, Eq, Structural)]
pub enum Step {
    /// Nothing is saved; rebuild the view models that `refresh` names.
    Done { refresh: Refresh },
    /// Save the data, then report the outcome to `finish`.
    Save(Pending),
}

pub struct StatusView {
    pub message: Seq<char>,
    pub kind: StatusKind,
}

pub struct EditorView {
    pub mode: ProjectEditorMode,
    pub draft_name: Seq<char>,
    pub error: Seq<char>,
    pub project: ProjectItemView,
}

pub struct FirstRunView {
    pub phase: FirstRunPhase,
    pub error: Seq<char>,
    pub created_projects: Seq<ProjectItemView>,
}

pub struct ExportStateView {
    pub project: Seq<char>,
    pub all_projects: bool,
    pub return_page: Page,
}

/// Everything the controller decides.
pub struct ControllerView {
    pub tracker: TrackerView,
    pub language: Language,
    pub page: Page,
    pub status: Option<StatusView>,
    pub editor: EditorView,
    pub first_run: FirstRunView,
    pub export_state: Option<ExportStateView>,
    /// The project scope of the export being prepared, once one is opened.
    pub export_context: Option<Option<Seq<char>>>,
    pub note_focus_request: i32,
    pub adjust_time_focus_request: i32,
    /// The data as it was before the project action that waits to be saved.
    pub rollback: Option<DataView>,
}

pub open spec fn status_view(s: Option<Status>) -> Option<StatusView> {
    match s {
        Some(status) => Some(StatusView { message: status.message@, kind: status.kind }),
        None => None,
    }
}

pub open spec fn editor_view(e: ProjectEditorState) -> EditorView {
    EditorView { mode: e.mode, draft_name: e.draft_name@, error: e.error@, project: e.project@ }
}

pub open spec fn first_run_view(f: FirstRunState) -> FirstRunView {
    FirstRunView {
        phase: f.phase,
        error: f.error@,
        created_projects: f.created_projects@.map_values(|p: ProjectItem| p@),
    }
}

/// The first-run screen before anything was entered.
pub open spec fn blank_first_run() -> FirstRunView {
    FirstRunView { phase: FirstRunPhase::Create, error: Seq::empty(), created_projects: Seq::empty() }
}

pub open spec fn export_state_view(e: Option<ExportState>) -> Option<ExportStateView> {
    match e {
        Some(s) => Some(
            ExportStateView { project: s.project@, all_projects: s.all_projects, return_page: s.return_page },
        ),
        None => None,
    }
}

/// The editor as it is when closed: creating, with nothing entered.
pub open spec fn blank_editor() -> EditorView {
    EditorView {
        mode: ProjectEditorMode::Create,
        draft_name: Seq::empty(),
        error: Seq::empty(),
        project: ProjectItemView { id: Seq::empty(), name: Seq::empty(), completed: false, archived: false },
    }
}

/// A status reporting an error.
pub open spec fn error_status(message: Seq<char>) -> Option<StatusView> {
    Some(StatusView { message, kind: StatusKind::Error })
}

/// The status shown when saving failed.
pub open spec fn save_failed(message: Seq<char>) -> Option<StatusView> {
    error_status("Could not save data: "@ + message)
}

fn blank_item() -> (r: ProjectItem)
    ensures
        r@ == blank_editor().project,
{
    ProjectItem { id: String::new(), name: String::new(), completed: false, archived: false }
}

fn blank_project_editor() -> (r: ProjectEditorState)
    ensures
        editor_view(r) == blank_editor(),
{
    ProjectEditorState {
        mode: ProjectEditorMode::Create,
        draft_name: String::new(),
        error: String::new(),
        project: blank_item(),
    }
}

fn save_failed_message(message: &str) -> (r: String)
    ensures
        r@ == "Could not save data: "@ + message@,
{
    let mut text = String::from_str("Could not save data: ");
    text.append(message);
    text
}

/// State holder and coordinator for window events and tracker operations.
pub struct UiController {
    tracker: Tracker,
    language: Language,
    page: Page,
    status: Option<Status>,
    project_editor: ProjectEditorState,
    first_run: FirstRunState,
    export_state: Option<ExportState>,
    export_context: Option<Option<ProjectId>>,
    note_focus_request: i32,
    adjust_time_focus_request: i32,
    rollback: Option<Data>,
}

impl View for UiController {
    type V = ControllerView;

    closed spec fn view(&self) -> ControllerView {
        ControllerView {
            tracker: self.tracker@,
            language: self.language,
            page: self.page,
            status: status_view(self.status),
            editor: editor_view(self.project_editor),
            first_run: first_run_view(self.first_run),
            export_state: export_state_view(self.export_state),
            export_context: match self.export_context {
                Some(Some(p)) => Some(Some(p@)),
                Some(None) => Some(None),
                None => None,
            },
            note_focus_request: self.note_focus_request,
            adjust_time_focus_request: self.adjust_time_focus_request,
            rollback: match self.rollback {
                Some(d) => Some(d@),
                None => None,
            },
        }
    }
}

impl UiController {
    /// A controller showing the home page, or the first-run page when there
    /// are no projects.
    pub fn new(tracker: Tracker, language: Language) -> (r: UiController)
        ensures
            r@ == (ControllerView {
                tracker: tracker@,
                language,
                page: if tracker@.data.projects.len() == 0 {
                    Page::FirstRun
                } else {
                    Page::Home
                },
                status: None,
                editor: blank_editor(),
                first_run: blank_first_run(),
                export_state: None,
                export_context: None,
                note_focus_request: 0,
                adjust_time_focus_request: 0,
                rollback: None,
            }),
    {
        let page = if tracker.data().projects().len() == 0 {
            Page::FirstRun
        } else {
            Page::Home
        };
        let created_projects: Vec<ProjectItem> = Vec::new();
        assert(created_projects@.map_values(|p: ProjectItem| p@) =~= Seq::empty());
        UiController {
            tracker,
            language,
            page,
            status: None,
            project_editor: blank_project_editor(),
            first_run: FirstRunState {
                phase: FirstRunPhase::Create,
                error: String::new(),
                created_projects,
            },
            export_state: None,
            export_context: None,
            note_focus_request: 0,
            adjust_time_focus_request: 0,
            rollback: None,
        }
    }

    pub fn tracker(&self) -> (r: &Tracker)
        ensures
            r@ == self@.tracker,
    {
        &self.tracker
    }

    pub fn language(&self) -> (r: Language)
        ensures
            r == self@.language,
    {
        self.language
    }

    pub fn page(&self) -> (r: Page)
        ensures
            r == self@.page,
    {
        self.page
    }

    pub fn status(&self) -> (r: Option<&Status>)
        ensures
            status_view(match r {
                Some(s) => Some(*s),
                None => None,
            }) == self@.status,
    {
        match &self.status {
            Some(s) => Some(s),
            None => None,
        }
    }

    pub fn project_editor(&self) -> (r: &ProjectEditorState)
        ensures
            editor_view(*r) == self@.editor,
    {
        &self.project_editor
    }

    pub fn export_state(&self) -> (r: Option<&ExportState>)
        ensures
            export_state_view(match r {
                Some(s) => Some(*s),
                None => None,
            }) == self@.export_state,
    {
        match &self.export_state {
            Some(s) => Some(s),
            None => None,
        }
    }

    pub fn note_focus_request(&self) -> (r: i32)
        ensures
            r == self@.note_focus_request,
    {
        self.note_focus_request
    }

    pub fn adjust_time_focus_request(&self) -> (r: i32)
        ensures
            r == self@.adjust_time_focus_request,
    {
        self.adjust_time_focus_request
    }

    pub fn first_run(&self) -> (r: &FirstRunState)
        ensures
            first_run_view(*r) == self@.first_run,
    {
        &self.first_run
    }

    fn set_status(&mut self, message: String, kind: StatusKind)
        ensures
            final(self)@ == (ControllerView {
                status: Some(StatusView { message: message@, kind }),
                ..old(self)@
            }),
    {
        self.status = Some(Status { message, kind });
    }

    fn set_error(&mut self, message: String)
        ensures
            final(self)@ == (ControllerView { status: error_status(message@), ..old(self)@ }),
    {
        self.set_status(message, StatusKind::Error);
    }

    /// Reports the outcome of work done outside the controller, such as a
    /// backup, as a status message.
    pub fn report_status(&mut self, message: String, kind: StatusKind)
        ensures
            final(self)@ == (ControllerView {
                status: Some(StatusView { message: message@, kind }),
                ..old(self)@
            }),
    {
        self.set_status(message, kind);
    }

    /// The status message expired.
    pub fn clear_status(&mut self)
        ensures
            final(self)@ == (ControllerView { status: None, ..old(self)@ }),
    {
        self.status = None;
    }

    /// Shows a requested page. Home is refused while an interrupted task
    /// waits, and the note page also asks for keyboard focus.
    pub fn navigate(&mut self, page: Page)
        ensures
            navigate_post(old(self)@, final(self)@, page),

    {
        if page == Page::Home && self.tracker.data().has_interrupted_task() {
            self.set_error(String::from_str("Finish the interrupted task before returning home"));
            return;
        }
        if page == Page::Note {
            self.show_note();
        } else {
            self.page = page;
        }
    }

    /// Opens the note page and asks for keyboard focus on its input.
    pub fn show_note(&mut self)
        ensures
            final(self)@ == (ControllerView {
                page: Page::Note,
                note_focus_request: if old(self)@.note_focus_request == i32::MAX {
                    i32::MAX
                } else {
                    (old(self)@.note_focus_request + 1) as i32
                },
                ..old(self)@
            }),
    {
        self.page = Page::Note;
        self.note_focus_request = if self.note_focus_request == i32::MAX {
            i32::MAX
        } else {
            self.note_focus_request + 1
        };
    }

    /// Opens the time adjustment page and asks for keyboard focus on it;
    /// without a completed task it is refused.
    pub fn open_adjust_time(&mut self)
        ensures
            final(self)@ == open_adjust_time_view(old(self)@),
    {
        if !self.tracker.data().has_tasks() {
            self.set_error(String::from_str("There is no completed task to adjust"));
            return;
        }
        self.page = Page::AdjustTime;
        self.adjust_time_focus_request = if self.adjust_time_focus_request == i32::MAX {
            i32::MAX
        } else {
            self.adjust_time_focus_request + 1
        };
    }

    /// Checkpoints running work; saving is needed when the checkpoint moved.
    pub fn tick(&mut self, now: i64) -> (step: Step)
        ensures
            tick_post(old(self)@, final(self)@, now, step),

    {
        if self.tracker.tick(now) {
            Step::Save(Pending::Tick)
        } else {
            Step::Done { refresh: Refresh::Tracking }
        }
    }

    /// Starts tracking a project; the data is then saved.
    pub fn start_tracking(&mut self, project_id: String, now: i64) -> (step: Step)
        requires
            old(self)@.tracker.data.tasks.len() + 3 <= u64::MAX,
        ensures
            start_tracking_post(old(self)@, final(self)@, project_id@, now, step),

    {
        self.tracker.start_tracking(project_id, now);
        Step::Save(Pending::StartTracking)
    }

    /// Opens the note page for the latest completed task, if there is one.
    pub fn open_last_task(&mut self) -> (step: Step)
        ensures
            open_last_task_post(old(self)@, final(self)@, step),

    {
        if self.tracker.data().has_tasks() {
            self.page = Page::Note;
        }
        Step::Done { refresh: Refresh::Nothing }
    }

    /// Finishes the running task; when one was running the data is then saved.
    pub fn end_tracking(&mut self, now: i64) -> (step: Step)
        ensures
            end_tracking_post(old(self)@, final(self)@, now, step),

    {
        if self.tracker.end_tracking(now) {
            Step::Save(Pending::EndTracking)
        } else {
            Step::Done { refresh: Refresh::Everything }
        }
    }

    /// Pauses or resumes the running task; when one was running the data is then saved.
    pub fn toggle_tracking_pause(&mut self, now: i64) -> (step: Step)
        requires
            old(self)@.tracker.data.active matches Some(a) ==> toggle_fits(a, now),
        ensures
            toggle_tracking_pause_post(old(self)@, final(self)@, now, step),

    {
        if self.tracker.toggle_tracking_pause(now) {
            Step::Save(Pending::TogglePause)
        } else {
            Step::Done { refresh: Refresh::Everything }
        }
    }

    /// Stores the note of the latest completed task; the data is then saved.
    pub fn save_task_note(&mut self, note: String) -> (step: Step)
        ensures
            save_task_note_post(old(self)@, final(self)@, note@, step),

    {
        self.tracker.save_task_note(note);
        Step::Save(Pending::SaveTaskNote)
    }

    /// Changes a completed task's note; a missing task is reported instead.
    pub fn update_evaluation_task(&mut self, id: String, note: String) -> (step: Step)
        ensures
            update_evaluation_task_post(old(self)@, final(self)@, id@, note@, step),

    {
        if self.tracker.update_task_note(id, note) {
            Step::Save(Pending::UpdateTask)
        } else {
            self.set_error(String::from_str("The session no longer exists"));
            Step::Done { refresh: Refresh::Nothing }
        }
    }

    /// Deletes a completed task; a missing task is reported instead.
    pub fn delete_evaluation_task(&mut self, id: String) -> (step: Step)
        ensures
            delete_evaluation_task_post(old(self)@, final(self)@, id@, step),

    {
        if self.tracker.delete_task(id) {
            Step::Save(Pending::DeleteTask)
        } else {
            self.set_error(String::from_str("The session no longer exists"));
            Step::Done { refresh: Refresh::Nothing }
        }
    }

    /// Selects the evaluation range.
    pub fn choose_range(&mut self, range: Range) -> (step: Step)
        ensures
            choose_range_post(old(self)@, final(self)@, range, step),

    {
        self.tracker.choose_range(range);
        Step::Done { refresh: Refresh::Everything }
    }

    /// Shows one project's tasks in the evaluation detail.
    pub fn open_drilldown(&mut self, project_id: String) -> (step: Step)
        ensures
            open_drilldown_post(old(self)@, final(self)@, project_id@, step),

    {
        self.tracker.select_evaluation_project(project_id);
        self.page = Page::Drilldown;
        Step::Done { refresh: Refresh::Everything }
    }

    /// Completes a command once its data was saved (`Ok`) or could not be
    /// (`Err` with the reason); returns whether to rebuild the projections.
    pub fn finish(&mut self, pending: Pending, saved: Result<(), String>) -> (refresh: Refresh)
        ensures
            finish_post(
                old(self)@,
                final(self)@,
                pending,
                match saved {
                    Ok(()) => Ok(()),
                    Err(m) => Err(m@),
                },
                refresh,
            ),

    {
        match saved {
            Ok(()) => match pending {
                Pending::Tick => Refresh::Tracking,
                Pending::StartTracking => {
                    self.page = Page::Tracking;
                    Refresh::Everything
                },
                Pending::EndTracking => {
                    self.page = Page::Note;
                    Refresh::Everything
                },
                Pending::TogglePause => Refresh::Everything,
                Pending::SaveTaskNote => {
                    self.page = Page::Home;
                    Refresh::Everything
                },
                Pending::UpdateTask | Pending::DeleteTask => Refresh::Everything,
                Pending::ProjectAction => {
                    self.rollback = None;
                    self.project_editor = blank_project_editor();
                    self.page = Page::Settings;
                    Refresh::Everything
                },
                Pending::FirstRunProject => {
                    let ghost before = self.first_run.created_projects@;
                    match self.newest_project_item() {
                        Some(item) => {
                            let ghost added = item@;
                            self.first_run.created_projects.push(item);
                            proof {
                                assert(self.first_run.created_projects@.map_values(
                                    |p: ProjectItem| p@,
                                ) =~= before.map_values(|p: ProjectItem| p@).push(added));
                            }
                        },
                        None => {},
                    }
                    self.rollback = None;
                    self.first_run.error = String::new();
                    self.first_run.phase = FirstRunPhase::ChooseNext;
                    Refresh::Everything
                },
            },
            Err(message) => match pending {
                Pending::ProjectAction => {
                    self.undo_project_action();
                    self.project_editor.error = message;
                    Refresh::Nothing
                },
                Pending::FirstRunProject => {
                    self.undo_project_action();
                    self.first_run.error = message;
                    Refresh::Nothing
                },
                Pending::SaveTaskNote => {
                    self.set_error(save_failed_message(message.as_str()));
                    self.page = Page::Home;
                    Refresh::Everything
                },
                Pending::Tick => {
                    self.set_error(save_failed_message(message.as_str()));
                    Refresh::Tracking
                },
                Pending::UpdateTask | Pending::DeleteTask => {
                    self.set_error(save_failed_message(message.as_str()));
                    Refresh::Nothing
                },
                _ => {
                    self.set_error(save_failed_message(message.as_str()));
                    Refresh::Everything
                },
            },
        }
    }

    /// Puts back the data from before the project action whose save failed.
    fn undo_project_action(&mut self)
        ensures
            final(self)@ == (ControllerView {
                tracker: rolled_back(old(self)@),
                rollback: None,
                ..old(self)@
            }),
    {
        let rollback = self.rollback.take();
        match rollback {
            Some(data) => self.tracker.replace_data(data),
            None => {},
        }
    }

    /// Opens the editor for a new project.
    pub fn open_project_create(&mut self)
        ensures
            final(self)@ == (ControllerView {
                editor: blank_editor(),
                page: Page::ProjectEditor,
                ..old(self)@
            }),
    {
        self.project_editor = blank_project_editor();
        self.page = Page::ProjectEditor;
    }

    /// Opens the editor for an existing project; a missing project is reported instead.
    pub fn open_project_edit(&mut self, id: &str)
        ensures
            open_project_edit_post(old(self)@, final(self)@, id@),

    {
        let projects = self.tracker.data().projects();
        let ghost ps = self@.tracker.data.projects;
        let target = ProjectId::new(id);
        let mut i: usize = 0;
        while i < projects.len() && !projects[i].id().same(&target)
            invariant
                i <= projects.len(),
                crate::domain::data::projects_view(projects@) == ps,
                target@ == id@,
                forall|j: int| 0 <= j < i ==> ps[j].id != id@,
            decreases projects.len() - i,
        {
            assert(projects[i as int]@ == ps[i as int]);
            i = i + 1;
        }
        proof {
            crate::domain::data::lemma_project_index(ps, id@);
        }
        if i == projects.len() {
            proof {
                if let Some(k) = project_index(ps, id@) {
                    assert(ps[k].id == id@);
                }
            }
            self.set_error(String::from_str("The project no longer exists"));
            return;
        }
        assert(projects[i as int]@ == ps[i as int]);
        assert(crate::domain::data::is_first_project(ps, id@, i as int));
        let project = &projects[i];
        let item = ProjectItem {
            id: String::from_str(project.id().as_str()),
            name: String::from_str(project.name()),
            completed: false,
            archived: project.archived(),
        };
        let draft_name = String::from_str(project.name());
        self.project_editor = ProjectEditorState {
            mode: ProjectEditorMode::Edit,
            draft_name,
            error: String::new(),
            project: item,
        };
        self.page = Page::ProjectEditor;
    }

    /// Whether a project already has exactly this name.
    pub fn project_name_exists(&self, name: &str) -> (r: bool)
        ensures
            r == exists|i: int|
                0 <= i < self@.tracker.data.projects.len() && self@.tracker.data.projects[i].name
                    == name@,
    {
        let projects = self.tracker.data().projects();
        let ghost ps = self@.tracker.data.projects;
        let wanted = String::from_str(name);
        let mut i: usize = 0;
        while i < projects.len()
            invariant
                i <= projects.len(),
                crate::domain::data::projects_view(projects@) == ps,
                wanted@ == name@,
                ps == self@.tracker.data.projects,
                forall|j: int| 0 <= j < i ==> ps[j].name != name@,
            decreases projects.len() - i,
        {
            assert(projects[i as int]@ == ps[i as int]);
            if String::from_str(projects[i].name()) == wanted {
                assert(ps[i as int].name == name@);
                return true;
            }
            i = i + 1;
        }
        false
    }

    /// Validates a name and creates a project; a rejected name is shown in
    /// the editor, otherwise the data is then saved.
    pub fn add_project(&mut self, name: &str, now: i64) -> (step: Step)
        ensures
            add_project_post(old(self)@, final(self)@, name@, now, step),

    {
        let before = self.tracker.data().clone();
        match self.tracker.add_project(name, now) {
            Ok(_) => {
                self.rollback = Some(before);
                Step::Save(Pending::ProjectAction)
            },
            Err(error) => {
                self.project_editor.error = error.message();
                Step::Done { refresh: Refresh::Nothing }
            },
        }
    }

    /// Validates a name and creates a project from the first-run screen; a
    /// rejected name is shown there, otherwise the data is then saved.
    pub fn add_first_run_project(&mut self, name: &str, now: i64) -> (step: Step)
        ensures
            add_first_run_project_post(old(self)@, final(self)@, name@, now, step),
    {
        let before = self.tracker.data().clone();
        match self.tracker.add_project(name, now) {
            Ok(_) => {
                self.rollback = Some(before);
                Step::Save(Pending::FirstRunProject)
            },
            Err(error) => {
                self.first_run.error = error.message();
                Step::Done { refresh: Refresh::Nothing }
            },
        }
    }

    /// The settings item of the project that the latest addition created.
    fn newest_project_item(&self) -> (r: Option<ProjectItem>)
        ensures
            match newest_project(self@.tracker.data) {
                Some(p) => r matches Some(item) && item@ == settings_item(p),
                None => r is None,
            },
    {
        let projects = self.tracker.data().projects();
        let ghost ps = self@.tracker.data.projects;
        if projects.len() == 0 {
            return None;
        }
        let last = projects.len() - 1;
        assert(projects[last as int]@ == ps[last as int]);
        let id = projects[last].id().clone();
        proof {
            crate::domain::data::lemma_project_index(ps, id@);
        }
        match self.tracker.data().project(&id) {
            Some(project) => Some(project_item(project)),
            None => None,
        }
    }

    /// Validates a name and renames a project; a rejected name is shown in
    /// the editor, otherwise the data is then saved.
    pub fn save_project(&mut self, id: String, name: &str) -> (step: Step)
        ensures
            save_project_post(old(self)@, final(self)@, id@, name@, step),

    {
        let before = self.tracker.data().clone();
        match self.tracker.save_project(id, name) {
            Ok(()) => {
                self.rollback = Some(before);
                Step::Save(Pending::ProjectAction)
            },
            Err(error) => {
                self.project_editor.error = error.message();
                Step::Done { refresh: Refresh::Nothing }
            },
        }
    }

    /// Archives a project; the data is then saved.
    pub fn archive_project(&mut self, id: String) -> (step: Step)
        ensures
            archive_project_post(old(self)@, final(self)@, id@, step),

    {
        self.rollback = Some(self.tracker.data().clone());
        self.tracker.archive_project(id);
        Step::Save(Pending::ProjectAction)
    }

    /// Restores an archived project; the data is then saved.
    pub fn unarchive_project(&mut self, id: String) -> (step: Step)
        ensures
            unarchive_project_post(old(self)@, final(self)@, id@, step),

    {
        self.rollback = Some(self.tracker.data().clone());
        self.tracker.unarchive_project(id);
        Step::Save(Pending::ProjectAction)
    }

    /// Deletes a project and its work; the data is then saved.
    pub fn delete_project(&mut self, id: String) -> (step: Step)
        ensures
            delete_project_post(old(self)@, final(self)@, id@, step),

    {
        self.rollback = Some(self.tracker.data().clone());
        self.tracker.delete_project(id);
        Step::Save(Pending::ProjectAction)
    }

    /// Dispatches a window command to its handler.
    pub fn handle(&mut self, command: UiCommand, now: i64) -> (step: Step)
        requires
            command_allowed(old(self)@, command, now),
        ensures
            handled(old(self)@, final(self)@, command, now, step),
    {
        match command {
            UiCommand::Tick => self.tick(now),
            UiCommand::Navigate(page) => {
                self.navigate(page);
                Step::Done { refresh: Refresh::Nothing }
            },
            UiCommand::StartTracking(id) => self.start_tracking(id, now),
            UiCommand::OpenLastTask => self.open_last_task(),
            UiCommand::EndTracking => self.end_tracking(now),
            UiCommand::ToggleTrackingPause => self.toggle_tracking_pause(now),
            UiCommand::SaveTaskNote(note) => self.save_task_note(note),
            UiCommand::OpenAdjustTime => {
                self.open_adjust_time();
                Step::Done { refresh: Refresh::Nothing }
            },
            UiCommand::UpdateEvaluationTask(id, note) => self.update_evaluation_task(id, note),
            UiCommand::DeleteEvaluationTask(id) => self.delete_evaluation_task(id),
            UiCommand::ChooseRange(range) => self.choose_range(range),
            UiCommand::OpenProjectCreate => {
                self.open_project_create();
                Step::Done { refresh: Refresh::Nothing }
            },
            UiCommand::OpenProjectEdit(id) => {
                self.open_project_edit(id.as_str());
                Step::Done { refresh: Refresh::Nothing }
            },
            UiCommand::AddProject(name) => self.add_project(name.as_str(), now),
            UiCommand::AddFirstRunProject(name) => self.add_first_run_project(name.as_str(), now),
            UiCommand::SaveProject(id, name) => self.save_project(id, name.as_str()),
            UiCommand::ArchiveProject(id) => self.archive_project(id),
            UiCommand::UnarchiveProject(id) => self.unarchive_project(id),
            UiCommand::DeleteProject(id) => self.delete_project(id),
            UiCommand::OpenExport => {
                self.open_export();
                Step::Done { refresh: Refresh::Nothing }
            },
            UiCommand::OpenDrilldown(id) => self.open_drilldown(id),
        }
    }

    /// Opens the export screen from Evaluation (all projects) or from a
    /// project's detail (that project); elsewhere it is refused.
    pub fn open_export(&mut self)
        ensures
            final(self)@ == open_export_view(old(self)@),
    {
        let project_id = match self.page {
            Page::Evaluation => None,
            Page::Drilldown => match self.tracker.evaluating_project() {
                Some(project) => Some(project.clone()),
                None => {
                    self.set_error(String::from_str("No project is selected for export"));
                    return;
                },
            },
            _ => {
                self.set_error(String::from_str("Export is available from Evaluation"));
                return;
            },
        };
        let project = match &project_id {
            Some(id) => self.tracker.data().project_name(id),
            None => String::new(),
        };
        self.export_state = Some(
            ExportState {
                project,
                all_projects: self.page == Page::Evaluation,
                return_page: self.page,
            },
        );
        self.export_context = Some(project_id);
        self.page = Page::Exportpage;
    }

    /// The project scope of the export the user is about to save, or `None`
    /// (with an error shown) when no export was opened.
    pub fn begin_export(&mut self) -> (r: Option<Option<ProjectId>>)
        ensures
            old(self)@.export_context is None ==> r is None && final(self)@ == (ControllerView {
                status: error_status("Choose an export from Evaluation first"@),
                ..old(self)@
            }),
            old(self)@.export_context matches Some(scope) ==> final(self)@ == old(self)@ && (
            r matches Some(found) && scope == match found {
                Some(p) => Some(p@),
                None => None,
            }),
    {
        match &self.export_context {
            Some(Some(project)) => Some(Some(project.clone())),
            Some(None) => Some(None),
            None => {
                self.set_error(String::from_str("Choose an export from Evaluation first"));
                None
            },
        }
    }

    /// Reports how writing an export ended.
    pub fn export_finished(&mut self, written: Result<(), String>)
        ensures
            written is Ok ==> final(self)@ == (ControllerView {
                status: Some(StatusView { message: "Export completed"@, kind: StatusKind::Success }),
                ..old(self)@
            }),
            written matches Err(reason) ==> final(self)@ == (ControllerView {
                status: error_status("Export failed: "@ + reason@),
                ..old(self)@
            }),
    {
        match written {
            Ok(()) => self.set_status(String::from_str("Export completed"), StatusKind::Success),
            Err(reason) => {
                let mut message = String::from_str("Export failed: ");
                message.append(reason.as_str());
                self.set_error(message);
            },
        }
    }

    /// Installs data restored from a backup: the export and editor are reset
    /// and the home page is shown with `message`.
    pub fn restore_finished(&mut self, data: crate::domain::data::Data, message: String)
        ensures
            final(self)@ == (ControllerView {
                tracker: TrackerView { data: data@, ..old(self)@.tracker },
                export_context: None,
                editor: blank_editor(),
                page: Page::Home,
                status: Some(StatusView { message: message@, kind: StatusKind::Success }),
                ..old(self)@
            }),
    {
        self.tracker.replace_data(data);
        self.export_context = None;
        self.project_editor = blank_project_editor();
        self.page = Page::Home;
        self.set_status(message, StatusKind::Success);
    }
}

pub open spec fn tick_post(o: ControllerView, n: ControllerView, now: i64, step: Step) -> bool {
    &&& (step == if o.tracker.data.active matches Some(a) && !a.paused {
                Step::Save(Pending::Tick)
            } else {
                Step::Done { refresh: Refresh::Tracking }
            })
    &&& (n == (ControllerView {
                tracker: TrackerView {
                    data: checkpoint_view(o.tracker.data, now),
                    ..o.tracker
                },
                ..o
            }))
}

pub open spec fn start_tracking_post(o: ControllerView, n: ControllerView, project_id: Seq<char>, now: i64, step: Step) -> bool {
    &&& (step == Step::Save(Pending::StartTracking))
    &&& (n == (ControllerView { tracker: n.tracker, ..o }))
    &&& (n.tracker.range == o.tracker.range)
    &&& (n.tracker.evaluating == o.tracker.evaluating)
    &&& (o.tracker.data.interrupted is Some ==> n.tracker.data == o.tracker.data)
    &&& (o.tracker.data.interrupted is None ==> (n.tracker.data.active matches Some(
                a,
            ) && is_next_task_id(o.tracker.data, now, a.id) && n.tracker.data
                == start_view(o.tracker.data, project_id, now, a.id)))
}

pub open spec fn open_last_task_post(o: ControllerView, n: ControllerView, step: Step) -> bool {
    &&& (step == (Step::Done { refresh: Refresh::Nothing }))
    &&& (n == if o.tracker.data.tasks.len() > 0 {
                ControllerView { page: Page::Note, ..o }
            } else {
                o
            })
}

pub open spec fn end_tracking_post(o: ControllerView, n: ControllerView, now: i64, step: Step) -> bool {
    &&& (step == if o.tracker.data.active is Some {
                Step::Save(Pending::EndTracking)
            } else {
                Step::Done { refresh: Refresh::Everything }
            })
    &&& (n == (ControllerView {
                tracker: TrackerView { data: end_view(o.tracker.data, now), ..o.tracker },
                ..o
            }))
}

pub open spec fn toggle_tracking_pause_post(o: ControllerView, n: ControllerView, now: i64, step: Step) -> bool {
    &&& (step == if o.tracker.data.active is Some {
                Step::Save(Pending::TogglePause)
            } else {
                Step::Done { refresh: Refresh::Everything }
            })
    &&& (n == (ControllerView {
                tracker: TrackerView {
                    data: toggle_view(o.tracker.data, now),
                    ..o.tracker
                },
                ..o
            }))
}

pub open spec fn save_task_note_post(o: ControllerView, n: ControllerView, note: Seq<char>, step: Step) -> bool {
    &&& (step == Step::Save(Pending::SaveTaskNote))
    &&& (n == (ControllerView {
                tracker: TrackerView {
                    data: note_last_view(o.tracker.data, note),
                    ..o.tracker
                },
                ..o
            }))
}

pub open spec fn update_evaluation_task_post(o: ControllerView, n: ControllerView, id: Seq<char>, note: Seq<char>, step: Step) -> bool {
    &&& (task_index(o.tracker.data.tasks, id) is Some ==> step == Step::Save(
                Pending::UpdateTask,
            ) && n == (ControllerView {
                tracker: TrackerView {
                    data: update_note_view(o.tracker.data, id, note),
                    ..o.tracker
                },
                ..o
            }))
    &&& (task_index(o.tracker.data.tasks, id) is None ==> step == (Step::Done {
                refresh: Refresh::Nothing,
            }) && n == (ControllerView {
                status: error_status("The session no longer exists"@),
                tracker: TrackerView {
                    data: update_note_view(o.tracker.data, id, note),
                    ..o.tracker
                },
                ..o
            }))
}

pub open spec fn delete_evaluation_task_post(o: ControllerView, n: ControllerView, id: Seq<char>, step: Step) -> bool {
    let found = exists|i: int| 0 <= i < o.tracker.data.tasks.len() && o.tracker.data.tasks[i].id == id;
    &&& n.tracker == (TrackerView { data: delete_task_view(o.tracker.data, id), ..o.tracker })
    &&& found ==> step == Step::Save(Pending::DeleteTask) && n == (ControllerView { tracker: n.tracker, ..o })
    &&& !found ==> step == (Step::Done { refresh: Refresh::Nothing }) && n == (ControllerView {
        tracker: n.tracker,
        status: error_status("The session no longer exists"@),
        ..o
    })
}

pub open spec fn choose_range_post(o: ControllerView, n: ControllerView, range: Range, step: Step) -> bool {
    &&& (step == (Step::Done { refresh: Refresh::Everything }))
    &&& (n == (ControllerView {
                tracker: TrackerView { range, ..o.tracker },
                ..o
            }))
}

pub open spec fn open_drilldown_post(o: ControllerView, n: ControllerView, project_id: Seq<char>, step: Step) -> bool {
    &&& (step == (Step::Done { refresh: Refresh::Everything }))
    &&& (n == (ControllerView {
                tracker: TrackerView { evaluating: Some(project_id), ..o.tracker },
                page: Page::Drilldown,
                ..o
            }))
}

pub open spec fn add_project_post(o: ControllerView, n: ControllerView, name: Seq<char>, now: i64, step: Step) -> bool {
    &&& (valid_project_name(name) ==> step == Step::Save(Pending::ProjectAction) && n
                == (ControllerView {
                tracker: TrackerView {
                    data: add_project_view(o.tracker.data, new_project_id(now), trimmed(name)),
                    ..o.tracker
                },
                rollback: Some(o.tracker.data),
                ..o
            }))
    &&& (!valid_project_name(name) ==> step == (Step::Done { refresh: Refresh::Nothing }) && n
                == (ControllerView {
                editor: EditorView { error: "Project name cannot be empty"@, ..o.editor },
                ..o
            }))
}

pub open spec fn save_project_post(o: ControllerView, n: ControllerView, id: Seq<char>, name: Seq<char>, step: Step) -> bool {
    &&& (valid_project_name(name) ==> step == Step::Save(Pending::ProjectAction) && n
                == (ControllerView {
                tracker: TrackerView {
                    data: rename_view(o.tracker.data, id, trimmed(name)),
                    ..o.tracker
                },
                rollback: Some(o.tracker.data),
                ..o
            }))
    &&& (!valid_project_name(name) ==> step == (Step::Done { refresh: Refresh::Nothing }) && n
                == (ControllerView {
                editor: EditorView { error: "Project name cannot be empty"@, ..o.editor },
                ..o
            }))
}

pub open spec fn archive_project_post(o: ControllerView, n: ControllerView, id: Seq<char>, step: Step) -> bool {
    &&& (step == Step::Save(Pending::ProjectAction))
    &&& (n == (ControllerView {
                tracker: TrackerView {
                    data: archive_view(o.tracker.data, id, true),
                    ..o.tracker
                },
                rollback: Some(o.tracker.data),
                ..o
            }))
}

pub open spec fn unarchive_project_post(o: ControllerView, n: ControllerView, id: Seq<char>, step: Step) -> bool {
    &&& (step == Step::Save(Pending::ProjectAction))
    &&& (n == (ControllerView {
                tracker: TrackerView {
                    data: archive_view(o.tracker.data, id, false),
                    ..o.tracker
                },
                rollback: Some(o.tracker.data),
                ..o
            }))
}

pub open spec fn delete_project_post(o: ControllerView, n: ControllerView, id: Seq<char>, step: Step) -> bool {
    &&& (step == Step::Save(Pending::ProjectAction))
    &&& (n == (ControllerView {
                tracker: TrackerView {
                    data: delete_project_view(o.tracker.data, id),
                    ..o.tracker
                },
                rollback: Some(o.tracker.data),
                ..o
            }))
}

/// The project that the latest addition created: the first project carrying
/// the identifier of the last one.
pub open spec fn newest_project(d: DataView) -> Option<ProjectView> {
    if d.projects.len() == 0 {
        None
    } else {
        match project_index(d.projects, d.projects.last().id) {
            Some(i) => Some(d.projects[i]),
            None => None,
        }
    }
}

/// The first-run screen once its project was saved.
pub open spec fn first_run_created(o: ControllerView) -> FirstRunView {
    FirstRunView {
        phase: FirstRunPhase::ChooseNext,
        error: Seq::empty(),
        created_projects: match newest_project(o.tracker.data) {
            Some(p) => o.first_run.created_projects.push(settings_item(p)),
            None => o.first_run.created_projects,
        },
    }
}

pub open spec fn add_first_run_project_post(o: ControllerView, n: ControllerView, name: Seq<char>, now: i64, step: Step) -> bool {
    &&& (valid_project_name(name) ==> step == Step::Save(Pending::FirstRunProject) && n
                == (ControllerView {
                tracker: TrackerView {
                    data: add_project_view(o.tracker.data, new_project_id(now), trimmed(name)),
                    ..o.tracker
                },
                rollback: Some(o.tracker.data),
                ..o
            }))
    &&& (!valid_project_name(name) ==> step == (Step::Done { refresh: Refresh::Nothing }) && n
                == (ControllerView {
                first_run: FirstRunView { error: "Project name cannot be empty"@, ..o.first_run },
                ..o
            }))
}

/// The state after asking for the time adjustment page.
pub open spec fn open_adjust_time_view(o: ControllerView) -> ControllerView {
    if o.tracker.data.tasks.len() == 0 {
        ControllerView { status: error_status("There is no completed task to adjust"@), ..o }
    } else {
        ControllerView {
            page: Page::AdjustTime,
            adjust_time_focus_request: next_focus_request(o.adjust_time_focus_request),
            ..o
        }
    }
}

/// The tracker with the data from before the project action that waits to
/// be saved put back, if there is such data.
pub open spec fn rolled_back(o: ControllerView) -> TrackerView {
    match o.rollback {
        Some(d) => TrackerView { data: d, ..o.tracker },
        None => o.tracker,
    }
}

/// What completing `pending` does once saving ended with `saved`.
pub open spec fn finish_post(
    o: ControllerView,
    n: ControllerView,
    pending: Pending,
    saved: Result<(), Seq<char>>,
    refresh: Refresh,
) -> bool {
    &&& n.export_state == o.export_state
    &&& n.export_context == o.export_context
    &&& saved is Ok ==> match pending {
        Pending::StartTracking => n == (ControllerView { page: Page::Tracking, ..o }),
        Pending::EndTracking => n == (ControllerView { page: Page::Note, ..o }),
        Pending::SaveTaskNote => n == (ControllerView { page: Page::Home, ..o }),
        Pending::ProjectAction => n == (ControllerView {
            page: Page::Settings,
            editor: blank_editor(),
            rollback: None,
            ..o
        }),
        Pending::FirstRunProject => n == (ControllerView {
            first_run: first_run_created(o),
            rollback: None,
            ..o
        }),
        _ => n == o,
    }
    &&& saved matches Err(message) ==> match pending {
        Pending::ProjectAction => n == (ControllerView {
            editor: EditorView { error: message, ..o.editor },
            tracker: rolled_back(o),
            rollback: None,
            ..o
        }),
        Pending::FirstRunProject => n == (ControllerView {
            first_run: FirstRunView { error: message, ..o.first_run },
            tracker: rolled_back(o),
            rollback: None,
            ..o
        }),
        Pending::SaveTaskNote => n == (ControllerView {
            page: Page::Home,
            status: save_failed(message),
            ..o
        }),
        _ => n == (ControllerView { status: save_failed(message), ..o }),
    }
    &&& refresh == match pending {
        Pending::Tick => Refresh::Tracking,
        Pending::UpdateTask | Pending::DeleteTask | Pending::ProjectAction
        | Pending::FirstRunProject => if saved is Ok {
            Refresh::Everything
        } else {
            Refresh::Nothing
        },
        _ => Refresh::Everything,
    }
}

/// The note page's focus request, counted up without wrapping.
pub open spec fn next_focus_request(n: i32) -> i32 {
    if n == i32::MAX {
        i32::MAX
    } else {
        (n + 1) as i32
    }
}

pub open spec fn navigate_post(o: ControllerView, n: ControllerView, page: Page) -> bool {
    if page == Page::Home && o.tracker.data.interrupted is Some {
        n == (ControllerView {
            status: error_status("Finish the interrupted task before returning home"@),
            ..o
        })
    } else if page == Page::Note {
        n == (ControllerView { page: Page::Note, note_focus_request: next_focus_request(o.note_focus_request), ..o })
    } else {
        n == (ControllerView { page, ..o })
    }
}

pub open spec fn open_project_edit_post(o: ControllerView, n: ControllerView, id: Seq<char>) -> bool {
    match project_index(o.tracker.data.projects, id) {
        Some(i) => n == (ControllerView {
            editor: EditorView {
                mode: ProjectEditorMode::Edit,
                draft_name: o.tracker.data.projects[i].name,
                error: Seq::empty(),
                project: settings_item(o.tracker.data.projects[i]),
            },
            page: Page::ProjectEditor,
            ..o
        }),
        None => n == (ControllerView { status: error_status("The project no longer exists"@), ..o }),
    }
}

/// A command from the window.
#[derive(Debug)]
pub enum UiCommand {
    Tick,
    Navigate(Page),
    StartTracking(String),
    OpenLastTask,
    EndTracking,
    ToggleTrackingPause,
    SaveTaskNote(String),
    OpenAdjustTime,
    UpdateEvaluationTask(String, String),
    DeleteEvaluationTask(String),
    ChooseRange(Range),
    OpenProjectCreate,
    OpenProjectEdit(String),
    AddProject(String),
    AddFirstRunProject(String),
    SaveProject(String, String),
    ArchiveProject(String),
    UnarchiveProject(String),
    DeleteProject(String),
    OpenExport,
    OpenDrilldown(String),
}

/// Whether a command can be handled at `now` without arithmetic overflow.
pub open spec fn command_allowed(o: ControllerView, command: UiCommand, now: i64) -> bool {
    match command {
        UiCommand::StartTracking(_) => o.tracker.data.tasks.len() + 3 <= u64::MAX,
        UiCommand::ToggleTrackingPause => o.tracker.data.active matches Some(a) ==> toggle_fits(a, now),
        _ => true,
    }
}

/// What handling `command` at `now` does.
pub open spec fn handled(o: ControllerView, n: ControllerView, command: UiCommand, now: i64, step: Step) -> bool {
    match command {
        UiCommand::Tick => tick_post(o, n, now, step),
        UiCommand::Navigate(page) => navigate_post(o, n, page) && step == (Step::Done { refresh: Refresh::Nothing }),
        UiCommand::StartTracking(id) => start_tracking_post(o, n, id@, now, step),
        UiCommand::OpenLastTask => open_last_task_post(o, n, step),
        UiCommand::EndTracking => end_tracking_post(o, n, now, step),
        UiCommand::ToggleTrackingPause => toggle_tracking_pause_post(o, n, now, step),
        UiCommand::SaveTaskNote(note) => save_task_note_post(o, n, note@, step),
        UiCommand::OpenAdjustTime => n == open_adjust_time_view(o) && step == (Step::Done {
            refresh: Refresh::Nothing,
        }),
        UiCommand::UpdateEvaluationTask(id, note) => update_evaluation_task_post(o, n, id@, note@, step),
        UiCommand::DeleteEvaluationTask(id) => delete_evaluation_task_post(o, n, id@, step),
        UiCommand::ChooseRange(range) => choose_range_post(o, n, range, step),
        UiCommand::OpenProjectCreate => n == (ControllerView {
            editor: blank_editor(),
            page: Page::ProjectEditor,
            ..o
        }) && step == (Step::Done { refresh: Refresh::Nothing }),
        UiCommand::OpenProjectEdit(id) => open_project_edit_post(o, n, id@) && step == (Step::Done {
            refresh: Refresh::Nothing,
        }),
        UiCommand::AddProject(name) => add_project_post(o, n, name@, now, step),
        UiCommand::AddFirstRunProject(name) => add_first_run_project_post(o, n, name@, now, step),
        UiCommand::SaveProject(id, name) => save_project_post(o, n, id@, name@, step),
        UiCommand::ArchiveProject(id) => archive_project_post(o, n, id@, step),
        UiCommand::UnarchiveProject(id) => unarchive_project_post(o, n, id@, step),
        UiCommand::DeleteProject(id) => delete_project_post(o, n, id@, step),
        UiCommand::OpenExport => n == open_export_view(o) && step == (Step::Done { refresh: Refresh::Nothing }),
        UiCommand::OpenDrilldown(id) => open_drilldown_post(o, n, id@, step),
    }
}

/// The state after opening the export screen.
pub open spec fn open_export_view(o: ControllerView) -> ControllerView {
    match o.page {
        Page::Evaluation => ControllerView {
            export_state: Some(
                ExportStateView { project: Seq::empty(), all_projects: true, return_page: Page::Evaluation },
            ),
            export_context: Some(None),
            page: Page::Exportpage,
            ..o
        },
        Page::Drilldown => match o.tracker.evaluating {
            Some(p) => ControllerView {
                export_state: Some(
                    ExportStateView {
                        project: project_name_of(o.tracker.data, p),
                        all_projects: false,
                        return_page: Page::Drilldown,
                    },
                ),
                export_context: Some(Some(p)),
                page: Page::Exportpage,
                ..o
            },
            None => ControllerView { status: error_status("No project is selected for export"@), ..o },
        },
        _ => ControllerView { status: error_status("Export is available from Evaluation"@), ..o },
    }
}

/// The file-dialog label and file extension of an export format.
pub fn export_file_kind(format: crate::report::Format) -> (r: (&'static str, &'static str))
    ensures
        format is Csv ==> r.0@ == "CSV"@ && r.1@ == "csv"@,
        format is Markdown ==> r.0@ == "Markdown"@ && r.1@ == "md"@,
        format is Json ==> r.0@ == "JSON"@ && r.1@ == "json"@,
{
    match format {
        crate::report::Format::Csv => ("CSV", "csv"),
        crate::report::Format::Markdown => ("Markdown", "md"),
        crate::report::Format::Json => ("JSON", "json"),
    }
}


/// While an interrupted task waits, asking for the home page keeps the
/// current page and shows why.
pub proof fn law_home_waits_for_interrupted_task(o: ControllerView, n: ControllerView)
    requires
        o.tracker.data.interrupted is Some,
        navigate_post(o, n, Page::Home),
    ensures
        n.page == o.page,
        n.status matches Some(status) && status.kind == StatusKind::Error,
        n.tracker == o.tracker,
{
}

/// The export screen remembers the page it was opened from, and navigating
/// to that page returns there.
pub proof fn law_export_returns_to_its_origin(o: ControllerView, n: ControllerView)
    requires
        o.page == Page::Evaluation || (o.page == Page::Drilldown && o.tracker.evaluating is Some),
        navigate_post(open_export_view(o), n, open_export_view(o).export_state.unwrap().return_page),
    ensures
        open_export_view(o).page == Page::Exportpage,
        open_export_view(o).export_state.unwrap().return_page == o.page,
        open_export_view(o).export_state.unwrap().all_projects == (o.page == Page::Evaluation),
        n.page == o.page,
{
}

/// A project action whose save failed keeps the editor open with its draft,
/// showing the reason, puts the data back as it was before the action, and
/// asks for no refresh; a later successful save closes it on the settings
/// page.
pub proof fn law_failed_project_save_keeps_draft(
    o: ControllerView,
    failed: ControllerView,
    retried: ControllerView,
    reason: Seq<char>,
    first: Refresh,
    second: Refresh,
)
    requires
        finish_post(o, failed, Pending::ProjectAction, Err(reason), first),
        finish_post(failed, retried, Pending::ProjectAction, Ok(()), second),
    ensures
        first == Refresh::Nothing,
        second == Refresh::Everything,
        failed.page == o.page,
        failed.editor.mode == o.editor.mode,
        failed.editor.draft_name == o.editor.draft_name,
        failed.editor.error == reason,
        failed.tracker == rolled_back(o),
        failed.rollback is None,
        retried.page == Page::Settings,
        retried.editor == blank_editor(),
        retried.tracker == failed.tracker,
{
}

/// Adding a project whose save then fails leaves the tracker as it was, so a
/// retry adds exactly one project.
pub proof fn law_failed_add_leaves_projects(
    o: ControllerView,
    m: ControllerView,
    n: ControllerView,
    name: Seq<char>,
    now: i64,
    step: Step,
    reason: Seq<char>,
    refresh: Refresh,
)
    requires
        add_project_post(o, m, name, now, step),
        step is Save,
        finish_post(m, n, Pending::ProjectAction, Err(reason), refresh),
    ensures
        n.tracker == o.tracker,
        n.editor.error == reason,
        n.page == o.page,
{
}

/// A project created on the first-run screen and then saved is listed there
/// under its new identifier and trimmed name, in the data as well, and the
/// screen moves on with no error shown.
pub proof fn law_first_run_lists_created_project(
    o: ControllerView,
    m: ControllerView,
    n: ControllerView,
    name: Seq<char>,
    now: i64,
    step: Step,
    refresh: Refresh,
)
    requires
        valid_project_name(name),
        project_index(o.tracker.data.projects, new_project_id(now)) is None,
        add_first_run_project_post(o, m, name, now, step),
        finish_post(m, n, Pending::FirstRunProject, Ok(()), refresh),
    ensures
        step == Step::Save(Pending::FirstRunProject),
        refresh == Refresh::Everything,
        n.page == o.page,
        n.first_run.phase == FirstRunPhase::ChooseNext,
        n.first_run.error == Seq::<char>::empty(),
        n.first_run.created_projects == o.first_run.created_projects.push(
            ProjectItemView { id: new_project_id(now), name: trimmed(name), completed: false, archived: false },
        ),
        n.tracker.data.projects == o.tracker.data.projects.push(
            ProjectView { id: new_project_id(now), name: trimmed(name), archived: false },
        ),
{
    let ps = o.tracker.data.projects;
    let id = new_project_id(now);
    crate::domain::data::lemma_project_index(ps, id);
    let qs = m.tracker.data.projects;
    assert(qs == ps.push(ProjectView { id, name: trimmed(name), archived: false }));
    assert(crate::domain::data::is_first_project(qs, id, ps.len() as int));
    crate::domain::data::lemma_project_index(qs, id);
}

/// A calendar day.
#[derive(Clone, Copy, Debug, PartialEq, Eq, Structural)]
pub struct CalendarDay {
    pub year: i32,
    pub month: u32,
    pub day: u32,
}

/// The local calendar day of `timestamp`, from chrono's
/// `Local.timestamp_opt(..).single()` and the `Datelike` accessors of the
/// result, which read the local date without panicking. It depends on the
/// time zone, so only the documented field ranges are stated.
#[verifier::external_body]
fn local_day(timestamp: i64) -> (r: Option<CalendarDay>)
    ensures
        r matches Some(d) ==> 1 <= d.month <= 12 && 1 <= d.day <= 31,
{
    match Local.timestamp_opt(timestamp, 0).single() {
        Some(time) => Some(CalendarDay { year: time.year(), month: time.month(), day: time.day() }),
        None => None,
    }
}

/// What chrono's `NaiveTime::parse_from_str(text, "%H:%M")` reads from a text:
/// an hour and a minute.
pub uninterp spec fn parsed_clock_time(text: Seq<char>) -> Option<(u32, u32)>;

/// `NaiveTime::parse_from_str(text, "%H:%M")` from chrono, taken apart into
/// hour and minute; which texts it accepts is named by `parsed_clock_time`,
/// and chrono documents the hour below 24 and the minute below 60.
#[verifier::external_body]
fn parse_clock_time(text: &str) -> (r: Option<(u32, u32)>)
    ensures
        r == parsed_clock_time(text@),
        r matches Some(t) ==> t.0 < 24 && t.1 < 60,
{
    match NaiveTime::parse_from_str(text, "%H:%M") {
        Ok(time) => Some((time.hour(), time.minute())),
        Err(_) => None,
    }
}

/// The timestamp of a local date and time from chrono's
/// `Local.from_local_datetime(..).single()`; `None` when the local time does
/// not exist or is ambiguous. It depends on the time zone, so nothing more is stated.
#[verifier::external_body]
fn local_timestamp_of(day: CalendarDay, hour: u32, minute: u32) -> Option<i64> {
    let date = NaiveDate::from_ymd_opt(day.year, day.month, day.day)?;
    let local = date.and_hms_opt(hour, minute, 0)?;
    match Local.from_local_datetime(&local).single() {
        Some(time) => Some(time.timestamp()),
        None => None,
    }
}

impl UiController {
    /// The interval that a completed task would get from `started` and
    /// `finished` times (`HH:MM`, surrounding whitespace ignored) on its start
    /// day, when the task exists, both times parse, and the finish is later.
    pub fn adjusted_interval(&self, id: &str, started: &str, finished: &str) -> (r: Option<(i64, i64)>)
        ensures
            task_index(self@.tracker.data.tasks, id@) is None ==> r is None,
            parsed_clock_time(trimmed(started@)) is None ==> r is None,
            parsed_clock_time(trimmed(finished@)) is None ==> r is None,
            r matches Some(interval) ==> interval.0 < interval.1,
    {
        let task = match self.tracker.data().task(&TaskId::new(id)) {
            Some(task) => task,
            None => {
                return None;
            },
        };
        let day = match local_day(task.started()) {
            Some(day) => day,
            None => {
                return None;
            },
        };
        let start_time = parse_clock_time(trim_str(started));
        let finish_time = parse_clock_time(trim_str(finished));
        let (start_hour, start_minute) = match start_time {
            Some(time) => time,
            None => {
                return None;
            },
        };
        let (finish_hour, finish_minute) = match finish_time {
            Some(time) => time,
            None => {
                return None;
            },
        };
        let started = match local_timestamp_of(day, start_hour, start_minute) {
            Some(timestamp) => timestamp,
            None => {
                return None;
            },
        };
        let finished = match local_timestamp_of(day, finish_hour, finish_minute) {
            Some(timestamp) => timestamp,
            None => {
                return None;
            },
        };
        ordered_interval(started, finished)
    }

    /// The duration label for an adjusted interval, or nothing when the
    /// interval is not usable.
    pub fn adjusted_duration(&self, id: &str, started: &str, finished: &str) -> (r: String)
        ensures
            r@ == Seq::<char>::empty() || exists|seconds: int|
                seconds > 0 && r@ == #[trigger] duration_label(seconds),
            task_index(self@.tracker.data.tasks, id@) is None ==> r@ == Seq::<char>::empty(),
            parsed_clock_time(trimmed(started@)) is None ==> r@ == Seq::<char>::empty(),
            parsed_clock_time(trimmed(finished@)) is None ==> r@ == Seq::<char>::empty(),
    {
        interval_duration(self.adjusted_interval(id, started, finished))
    }
}

/// The interval from `started` to `finished`, when the finish is later.
pub fn ordered_interval(started: i64, finished: i64) -> (r: Option<(i64, i64)>)
    ensures
        r == if finished > started {
            Some((started, finished))
        } else {
            None
        },
{
    if finished > started {
        Some((started, finished))
    } else {
        None
    }
}

/// The duration label of an interval's length, or nothing without an
/// interval (or when its length does not fit in 64 bits).
pub fn interval_duration(interval: Option<(i64, i64)>) -> (r: String)
    ensures
        match interval {
            Some((started, finished)) => if i64::MIN <= finished - started <= i64::MAX {
                r@ == duration_label(finished - started)
            } else {
                r@ == Seq::<char>::empty()
            },
            None => r@ == Seq::<char>::empty(),
        },
{
    match interval {
        Some((started, finished)) => match finished.checked_sub(started) {
            Some(seconds) => format_duration(seconds),
            None => String::new(),
        },
        None => String::new(),
    }
}

} // verus!
