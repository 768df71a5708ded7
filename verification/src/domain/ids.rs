//! Distinct identifiers for projects and recorded tasks.
//!
//! They remain separate types so a task identifier cannot be used where a
//! project identifier is required.

use vstd::prelude::*;

verus! {

/// Identifies one project within the tracker data set.
#[derive(Debug)]
pub struct ProjectId(pub String);

impl View for ProjectId {
    type V = Seq<char>;

    open spec fn view(&self) -> Seq<char> {
        self.0@
    }
}

impl ProjectId {
    /// An identifier with the given text.
    pub fn new(value: &str) -> (r: ProjectId)
        ensures
            r@ == value@,
    {
        ProjectId(String::from_str(value))
    }

    /// Wraps an owned string as an identifier.
    pub fn from_string(value: String) -> (r: ProjectId)
        ensures
            r@ == value@,
    {
        ProjectId(value)
    }

    pub fn as_str(&self) -> (r: &str)
        ensures
            r@ == self@,
    {
        self.0.as_str()
    }

    /// Whether both identifiers hold the same text.
    pub fn same(&self, other: &ProjectId) -> (r: bool)
        ensures
            r == (self@ == other@),
    {
        self.0 == other.0
    }
}

impl Clone for ProjectId {
    fn clone(&self) -> (r: Self)
        ensures
            r@ == self@,
    {
        ProjectId(self.0.clone())
    }
}

impl PartialEq for ProjectId {
    fn eq(&self, other: &Self) -> (r: bool) {
        self.0 == other.0
    }
}

impl Eq for ProjectId {}

impl vstd::std_specs::cmp::PartialEqSpecImpl for ProjectId {
    open spec fn obeys_eq_spec() -> bool {
        true
    }

    open spec fn eq_spec(&self, other: &ProjectId) -> bool {
        self@ == other@
    }
}

/// Identifies one completed or active task within the tracker data set.
#[derive(Debug)]
pub struct TaskId(pub String);

impl View for TaskId {
    type V = Seq<char>;

    open spec fn view(&self) -> Seq<char> {
        self.0@
    }
}

impl TaskId {
    /// An identifier with the given text.
    pub fn new(value: &str) -> (r: TaskId)
        ensures
            r@ == value@,
    {
        TaskId(String::from_str(value))
    }

    /// Wraps an owned string as an identifier.
    pub fn from_string(value: String) -> (r: TaskId)
        ensures
            r@ == value@,
    {
        TaskId(value)
    }

    pub fn as_str(&self) -> (r: &str)
        ensures
            r@ == self@,
    {
        self.0.as_str()
    }

    /// Whether both identifiers hold the same text.
    pub fn same(&self, other: &TaskId) -> (r: bool)
        ensures
            r == (self@ == other@),
    {
        self.0 == other.0
    }
}

impl Clone for TaskId {
    fn clone(&self) -> (r: Self)
        ensures
            r@ == self@,
    {
        TaskId(self.0.clone())
    }
}

impl PartialEq for TaskId {
    fn eq(&self, other: &Self) -> (r: bool) {
        self.0 == other.0
    }
}

impl Eq for TaskId {}

impl vstd::std_specs::cmp::PartialEqSpecImpl for TaskId {
    open spec fn obeys_eq_spec() -> bool {
        true
    }

    open spec fn eq_spec(&self, other: &TaskId) -> bool {
        self@ == other@
    }
}

} // verus!
