//! Projects and the validation applied to their editable names.
//!
//! A project may be archived while its previously recorded tasks remain part
//! of the tracker history. Persistence supplies stable project identifiers.

use crate::domain::ids::ProjectId;
use crate::error::TrackerError;
use crate::text::{lemma_trimmed_idempotent, trim_str, trimmed};
use vstd::prelude::*;

verus! {

/// What a project is: its identifier, its name, and whether it is archived.
pub struct ProjectView {
    pub id: Seq<char>,
    pub name: Seq<char>,
    pub archived: bool,
}

/// A named bucket to which tracked tasks belong.
///
/// Archiving affects project lifecycle state without deleting its historical tasks.
#[derive(Debug)]
pub struct Project {
    id: ProjectId,
    name: String,
    archived: bool,
}

impl View for Project {
    type V = ProjectView;

    closed spec fn view(&self) -> ProjectView {
        ProjectView { id: self.id@, name: self.name@, archived: self.archived }
    }
}

impl Clone for Project {
    fn clone(&self) -> (r: Self)
        ensures
            r@ == self@,
    {
        Project { id: self.id.clone(), name: self.name.clone(), archived: self.archived }
    }
}

impl Project {
    /// A new, active project.
    pub fn new(id: ProjectId, name: String) -> (r: Project)
        ensures
            r@ == (ProjectView { id: id@, name: name@, archived: false }),
    {
        Project { id, name, archived: false }
    }

    /// Reconstructs a project including its persisted archive state.
    pub fn from_storage(id: ProjectId, name: String, archived: bool) -> (r: Project)
        ensures
            r@ == (ProjectView { id: id@, name: name@, archived }),
    {
        Project { id, name, archived }
    }

    pub fn id(&self) -> (r: &ProjectId)
        ensures
            r@ == self@.id,
    {
        &self.id
    }

    pub fn name(&self) -> (r: &str)
        ensures
            r@ == self@.name,
    {
        self.name.as_str()
    }

    pub fn archived(&self) -> (r: bool)
        ensures
            r == self@.archived,
    {
        self.archived
    }

    pub fn rename(&mut self, name: String)
        ensures
            final(self)@ == (ProjectView { name: name@, ..old(self)@ }),
    {
        self.name = name;
    }

    pub fn archive(&mut self)
        ensures
            final(self)@ == (ProjectView { archived: true, ..old(self)@ }),
    {
        self.archived = true;
    }

    pub fn unarchive(&mut self)
        ensures
            final(self)@ == (ProjectView { archived: false, ..old(self)@ }),
    {
        self.archived = false;
    }
}

/// Whether `name` is accepted as a project name: something other than
/// whitespace remains once it is trimmed.
pub open spec fn valid_project_name(name: Seq<char>) -> bool {
    trimmed(name).len() > 0
}

/// Trims a project name and rejects an empty result.
pub fn validate_project_name(name: &str) -> (r: Result<String, TrackerError>)
    ensures
        r is Ok <==> valid_project_name(name@),
        r matches Ok(v) ==> v@ == trimmed(name@),
        r matches Err(e) ==> e is EmptyProjectName,
{
    let name = trim_str(name);
    if name.unicode_len() == 0 {
        Err(TrackerError::EmptyProjectName)
    } else {
        Ok(String::from_str(name))
    }
}

/// A name that validation accepted is accepted again unchanged.
pub proof fn law_validated_name_is_stable(name: Seq<char>)
    requires
        valid_project_name(name),
    ensures
        valid_project_name(trimmed(name)),
        trimmed(trimmed(name)) == trimmed(name),
{
    lemma_trimmed_idempotent(name);
}

} // verus!
