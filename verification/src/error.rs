//! The tracker's error type.

use vstd::prelude::*;

verus! {

/// A SQLite failure reported by the storage layer.
#[verifier::external_type_specification]
#[verifier::external_body]
pub struct ExSqliteError(rusqlite::Error);

/// An operating-system I/O failure reported by the storage layer.
#[verifier::external_type_specification]
#[verifier::external_body]
pub struct ExIoError(std::io::Error);

/// Why a tracker operation was refused or could not be persisted.
#[derive(Debug)]
pub enum TrackerError {
    /// A project name that is empty once surrounding whitespace is removed.
    EmptyProjectName,
    /// A second interruption was requested while one is already running.
    SecondaryTaskAlreadyActive,
    /// The database could not be read or written.
    Sqlite(rusqlite::Error),
    /// The file system refused an operation.
    Io(std::io::Error),
    /// A file offered as a backup is not a usable Tempo database.
    InvalidBackup,
}

impl TrackerError {
    /// The message shown to the user for this error.
    pub fn message(&self) -> (r: String)
        ensures
            self is EmptyProjectName ==> r@ == "Project name cannot be empty"@,
            self is SecondaryTaskAlreadyActive ==> r@
                == "Finish the interrupted task before starting another one"@,
            self is InvalidBackup ==> r@ == "The selected file is not a valid Tempo backup"@,
            self is Io ==> exists|detail: Seq<char>| r@ == "IO error: "@ + detail,
    {
        match self {
            TrackerError::EmptyProjectName => String::from_str("Project name cannot be empty"),
            TrackerError::SecondaryTaskAlreadyActive => String::from_str(
                "Finish the interrupted task before starting another one",
            ),
            TrackerError::Sqlite(error) => sqlite_message(error),
            TrackerError::Io(error) => {
                let mut text = String::from_str("IO error: ");
                let detail = io_message(error);
                text.append(detail.as_str());
                assert(text@ == "IO error: "@ + detail@);
                text
            },
            TrackerError::InvalidBackup => String::from_str(
                "The selected file is not a valid Tempo backup",
            ),
        }
    }
}

/// Renders a rusqlite error through its `Display` impl; nothing is stated of the text.
#[verifier::external_body]
fn sqlite_message(error: &rusqlite::Error) -> String {
    error.to_string()
}

/// Renders an I/O error through its `Display` impl; nothing is stated of the text.
#[verifier::external_body]
fn io_message(error: &std::io::Error) -> String {
    error.to_string()
}

} // verus!
