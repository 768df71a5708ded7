//! Application-level state for the tracker.
//!
//! [`Tracker`] applies user operations to the domain aggregate and holds
//! interaction state such as the selected reporting range and evaluation
//! selection. Each operation tells its caller whether the aggregate changed
//! and must be persisted; writing it to storage is the caller's work.

use crate::domain::data::{
    Data, DataView, add_project_view, archive_view, checkpoint_view, delete_project_view,
    delete_task_view, end_view, is_next_task_id, note_last_view, recover_view, rename_view,
    start_view, task_index, toggle_view, update_note_view,
};
use crate::domain::ids::{ProjectId, TaskId};
use crate::domain::project::{valid_project_name, validate_project_name};
use crate::domain::range::Range;
use crate::domain::task::toggle_fits;
use crate::error::TrackerError;
use crate::language::Language;
use crate::report::{ExportDocumentView, export_of, magnitude, markdown, markdown_text};
use crate::text::{push_signed, signed_decimal, trimmed};
use vstd::prelude::*;

verus! {

/// The tracker's state: the aggregate, the selected range, and the project
/// whose tasks the evaluation detail shows.
pub struct TrackerView {
    pub data: DataView,
    pub range: Range,
    pub evaluating: Option<Seq<char>>,
}

/// The identifier given to a project created at `timestamp`: `project-{timestamp}`.
pub open spec fn new_project_id(timestamp: i64) -> Seq<char> {
    "project-"@ + signed_decimal(timestamp as int)
}

/// Coordinates domain state and application-only interaction state.
#[derive(Debug)]
pub struct Tracker {
    data: Data,
    range: Range,
    evaluating_project: Option<ProjectId>,
}

impl View for Tracker {
    type V = TrackerView;

    closed spec fn view(&self) -> TrackerView {
        TrackerView {
            data: self.data@,
            range: self.range,
            evaluating: match self.evaluating_project {
                Some(p) => Some(p@),
                None => None,
            },
        }
    }
}

impl Tracker {
    /// Starts from data loaded from storage and closes any restored active
    /// task in memory, showing today's range.
    pub fn load_default(stored: Data) -> (r: Tracker)
        ensures
            r@ == (TrackerView { data: recover_view(stored@), range: Range::Day, evaluating: None }),
    {
        let mut data = stored;
        data.recover_active();
        Tracker { data, range: Range::Day, evaluating_project: None }
    }

    /// Starts from the given data as it is, showing today's range.
    pub fn with_data(data: Data) -> (r: Tracker)
        ensures
            r@ == (TrackerView { data: data@, range: Range::Day, evaluating: None }),
    {
        Tracker { data, range: Range::Day, evaluating_project: None }
    }

    pub fn data(&self) -> (r: &Data)
        ensures
            r@ == self@.data,
    {
        &self.data
    }

    pub fn range(&self) -> (r: Range)
        ensures
            r == self@.range,
    {
        self.range
    }

    /// Starts tracking for a project. A refused start (an interruption is
    /// already running) leaves the data as it was; the data is saved either way.
    pub fn start_tracking(&mut self, project_id: String, timestamp: i64)
        requires
            old(self)@.data.tasks.len() + 3 <= u64::MAX,
        ensures
            final(self)@.range == old(self)@.range,
            final(self)@.evaluating == old(self)@.evaluating,
            old(self)@.data.interrupted is Some ==> final(self)@.data == old(self)@.data,
            old(self)@.data.interrupted is None ==> (final(self)@.data.active matches Some(a)
                && is_next_task_id(old(self)@.data, timestamp, a.id) && final(self)@.data
                == start_view(old(self)@.data, project_id@, timestamp, a.id)),
    {
        let _ = self.data.start_tracking(ProjectId::from_string(project_id), timestamp);
    }

    /// Checkpoints active, unpaused work; returns whether the data changed and must be saved.
    pub fn tick(&mut self, timestamp: i64) -> (save: bool)
        ensures
            save == (old(self)@.data.active matches Some(a) && !a.paused),
            final(self)@ == (TrackerView {
                data: checkpoint_view(old(self)@.data, timestamp),
                ..old(self)@
            }),
    {
        self.data.checkpoint_active(timestamp)
    }

    /// Pauses or resumes active work; returns whether the tracking state changed
    /// and must be saved.
    pub fn toggle_tracking_pause(&mut self, timestamp: i64) -> (changed: bool)
        requires
            old(self)@.data.active matches Some(a) ==> toggle_fits(a, timestamp),
        ensures
            changed == old(self)@.data.active is Some,
            final(self)@ == (TrackerView {
                data: toggle_view(old(self)@.data, timestamp),
                ..old(self)@
            }),
    {
        self.data.toggle_pause(timestamp)
    }

    /// Finishes active work at `timestamp`; returns whether a task was finished
    /// and the data must be saved.
    pub fn end_tracking(&mut self, timestamp: i64) -> (ended: bool)
        ensures
            ended == old(self)@.data.active is Some,
            final(self)@ == (TrackerView { data: end_view(old(self)@.data, timestamp), ..old(self)@ }),
    {
        self.data.end_tracking(timestamp)
    }

    /// Sets the latest completed task's note; the data is then saved.
    pub fn save_task_note(&mut self, note: String)
        ensures
            final(self)@ == (TrackerView {
                data: note_last_view(old(self)@.data, note@),
                ..old(self)@
            }),
    {
        self.data.save_task_note(note);
    }

    /// Updates a completed task's note; returns whether the task exists and
    /// the data must be saved.
    pub fn update_task_note(&mut self, id: String, note: String) -> (updated: bool)
        ensures
            updated == (task_index(old(self)@.data.tasks, id@) is Some),
            final(self)@ == (TrackerView {
                data: update_note_view(old(self)@.data, id@, note@),
                ..old(self)@
            }),
    {
        self.data.update_task_note(&TaskId::from_string(id), note)
    }

    /// Deletes one completed task; returns whether it existed and the data must be saved.
    pub fn delete_task(&mut self, id: String) -> (deleted: bool)
        ensures
            deleted == (exists|i: int|
                0 <= i < old(self)@.data.tasks.len() && old(self)@.data.tasks[i].id == id@),
            final(self)@ == (TrackerView {
                data: delete_task_view(old(self)@.data, id@),
                ..old(self)@
            }),
    {
        self.data.delete_task(&TaskId::from_string(id))
    }

    /// Selects the range used by evaluation and report projections.
    pub fn choose_range(&mut self, range: Range)
        ensures
            final(self)@ == (TrackerView { range, ..old(self)@ }),
    {
        self.range = range;
    }

    /// Selects a project whose tasks are shown in the evaluation detail view.
    pub fn select_evaluation_project(&mut self, project_id: String)
        ensures
            final(self)@ == (TrackerView { evaluating: Some(project_id@), ..old(self)@ }),
    {
        self.evaluating_project = Some(ProjectId::from_string(project_id));
    }

    /// The project currently selected for evaluation detail, if any.
    pub fn evaluating_project(&self) -> (r: Option<&ProjectId>)
        ensures
            r matches Some(p) ==> self@.evaluating == Some(p@),
            r is None ==> self@.evaluating is None,
    {
        match &self.evaluating_project {
            Some(p) => Some(p),
            None => None,
        }
    }

    /// Validates and renames an existing project; on success the data is then saved.
    pub fn save_project(&mut self, id: String, name: &str) -> (r: Result<(), TrackerError>)
        ensures
            r is Ok <==> valid_project_name(name@),
            r matches Err(e) ==> e is EmptyProjectName && final(self)@ == old(self)@,
            r is Ok ==> final(self)@ == (TrackerView {
                data: rename_view(old(self)@.data, id@, trimmed(name@)),
                ..old(self)@
            }),
    {
        let name = match validate_project_name(name) {
            Ok(name) => name,
            Err(error) => {
                return Err(error);
            },
        };
        self.data.rename_project(&ProjectId::from_string(id), name);
        Ok(())
    }

    /// Validates a name and adds a project identified by `project-{timestamp}`;
    /// on success the data is then saved.
    pub fn add_project(&mut self, name: &str, timestamp: i64) -> (r: Result<ProjectId, TrackerError>)
        ensures
            r is Ok <==> valid_project_name(name@),
            r matches Err(e) ==> e is EmptyProjectName && final(self)@ == old(self)@,
            r matches Ok(id) ==> id@ == new_project_id(timestamp) && final(self)@ == (TrackerView {
                data: add_project_view(old(self)@.data, new_project_id(timestamp), trimmed(name@)),
                ..old(self)@
            }),
    {
        let name = match validate_project_name(name) {
            Ok(name) => name,
            Err(error) => {
                return Err(error);
            },
        };
        let mut text = String::from_str("project-");
        push_signed(&mut text, timestamp);
        let id = ProjectId::from_string(text);
        self.data.add_project(id.clone(), name);
        Ok(id)
    }

    /// Archives a project while retaining its recorded work; the data is then saved.
    pub fn archive_project(&mut self, id: String)
        ensures
            final(self)@ == (TrackerView {
                data: archive_view(old(self)@.data, id@, true),
                ..old(self)@
            }),
    {
        self.data.archive_project(&ProjectId::from_string(id));
    }

    /// Restores an archived project to the active lifecycle state; the data is then saved.
    pub fn unarchive_project(&mut self, id: String)
        ensures
            final(self)@ == (TrackerView {
                data: archive_view(old(self)@.data, id@, false),
                ..old(self)@
            }),
    {
        self.data.unarchive_project(&ProjectId::from_string(id));
    }

    /// Deletes a project and its work; the data is then saved.
    pub fn delete_project(&mut self, id: String)
        ensures
            final(self)@ == (TrackerView {
                data: delete_project_view(old(self)@.data, id@),
                ..old(self)@
            }),
    {
        self.data.delete_project(&ProjectId::from_string(id));
    }

    /// Renders the selected range as a localized Markdown report without saving.
    pub fn report(&self, timestamp: i64, language: Language) -> (r: String)
        requires
            magnitude(self@.data.tasks) <= i64::MAX - 30,
        ensures
            exists|doc: ExportDocumentView|
                export_of(doc, self@.data, self@.range, None, language, timestamp) && r@ == markdown_text(doc),
    {
        markdown(&self.data, self.range, timestamp, language)
    }

    /// Replaces the aggregate with data restored from a backup.
    pub fn replace_data(&mut self, data: Data)
        ensures
            final(self)@ == (TrackerView { data: data@, ..old(self)@ }),
    {
        self.data = data;
    }
}

} // verus!
