use vstd::prelude::*;

use crate::task::Task;

verus! {

/// The path a bare file name is stored under: the name followed by `.json`.
pub open spec fn storage_path_of(filename: Seq<char>) -> Seq<char> {
    filename + ".json"@
}

/// The path a bare file name is stored under.
pub fn storage_path(filename: &str) -> (r: String)
    ensures
        r@ == storage_path_of(filename@),
{
    let mut p = String::from_str(filename);
    p.append(".json");
    p
}

/// Where a save may write: the path, only when no file is there yet; a file
/// that exists is never written over.
pub fn save_target(filename: &str, exists: bool) -> (r: Result<String, String>)
    ensures
        exists ==> r is Err && r->Err_0@ == "File already exists"@,
        !exists ==> r is Ok && r->Ok_0@ == storage_path_of(filename@),
{
    if exists {
        Err(String::from_str("File already exists"))
    } else {
        Ok(storage_path(filename))
    }
}

/// What happened when the registry was written out.
pub enum SaveOutcome {
    /// A file was already at the path; nothing was written.
    AlreadyExists,
    /// The file could not be created, for the given cause.
    CreateFailed(String),
    /// The tasks could not be written, for the given cause.
    WriteFailed(String),
    /// The tasks were written.
    Written,
}

/// What happened when a file was read back.
pub enum LoadOutcome {
    /// No file was at the path.
    Missing,
    /// The file could not be opened, for the given cause.
    OpenFailed(String),
    /// The file's contents were not a task list, for the given cause.
    ParseFailed(String),
    /// The file held these tasks, in order.
    Parsed(Vec<Task>),
}

/// `prefix` followed by `cause`.
pub open spec fn cause_message(prefix: Seq<char>, cause: Seq<char>) -> Seq<char> {
    prefix + cause
}

pub(crate) fn cause_message_exec(prefix: &str, cause: &String) -> (r: String)
    ensures
        r@ == cause_message(prefix@, cause@),
{
    let mut m = String::from_str(prefix);
    m.append(cause.as_str());
    m
}

/// The message that a save reports, by outcome.
pub open spec fn save_message(o: SaveOutcome) -> Result<Seq<char>, Seq<char>> {
    match o {
        SaveOutcome::AlreadyExists => Err("File already exists"@),
        SaveOutcome::CreateFailed(e) => Err(cause_message("Error creating file: "@, e@)),
        SaveOutcome::WriteFailed(e) => Err(cause_message("Error saving data: "@, e@)),
        SaveOutcome::Written => Ok("Data saved"@),
    }
}

/// The view of a reported result.
pub open spec fn result_view(r: Result<String, String>) -> Result<Seq<char>, Seq<char>> {
    match r {
        Ok(m) => Ok(m@),
        Err(m) => Err(m@),
    }
}

/// Reports a save: success only when the tasks were written.
pub fn save_report(outcome: SaveOutcome) -> (r: Result<String, String>)
    ensures
        result_view(r) == save_message(outcome),
{
    match outcome {
        SaveOutcome::AlreadyExists => Err(String::from_str("File already exists")),
        SaveOutcome::CreateFailed(e) => Err(cause_message_exec("Error creating file: ", &e)),
        SaveOutcome::WriteFailed(e) => Err(cause_message_exec("Error saving data: ", &e)),
        SaveOutcome::Written => Ok(String::from_str("Data saved")),
    }
}

} // verus!
