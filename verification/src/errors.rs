use vstd::prelude::*;
use vstd::string::StringExecFns;

verus! {

/// The kind of failure, one for each way a command can go wrong.
#[derive(Clone, Copy, Debug, PartialEq, Eq, Structural)]
pub enum ErrorKind {
    /// Both a project and a filter were supplied for one invocation.
    SelectorConflict,
    /// No selector could be determined: no projects are configured,
    /// the filter text is empty, or a needed answer was not supplied.
    SelectorUnresolvable,
    /// A project name was given that is not in the remembered set.
    ProjectNotFound,
    /// The remote service failed while fetching tasks.
    RemoteFetchFailed,
    /// The remote service failed while updating a single task.
    RemoteUpdateFailed,
    /// `recall` was called before any task was remembered.
    NoCurrentTask,
    /// A date or datetime expression could not be understood.
    InvalidDateInput,
}

/// An error carrying its kind, the component it came from, and a
/// human-readable message. A `RemoteUpdateFailed` also carries the
/// identifier of the task whose update failed.
#[derive(Debug)]
pub struct Error {
    pub kind: ErrorKind,
    pub source: String,
    pub message: String,
    pub task_id: Option<String>,
}

impl Error {
    /// Build an error from its kind, originating component and message.
    pub fn new(kind: ErrorKind, source: &str, message: &str) -> (e: Error)
        ensures
            e.kind == kind,
            e.source@ == source@,
            e.message@ == message@,
            e.task_id is None,
    {
        Error { kind, source: source.to_owned(), message: message.to_owned(), task_id: None }
    }

    /// Build a `RemoteUpdateFailed` error tagged with the task that failed.
    pub fn remote_update(source: &str, message: &str, task_id: &str) -> (e: Error)
        ensures
            e.kind == ErrorKind::RemoteUpdateFailed,
            e.source@ == source@,
            e.message@ == message@,
            e.task_id matches Some(t) && t@ == task_id@,
    {
        Error {
            kind: ErrorKind::RemoteUpdateFailed,
            source: source.to_owned(),
            message: message.to_owned(),
            task_id: Some(task_id.to_owned()),
        }
    }

    /// The error as one line naming its component and its message.
    pub fn display_string(&self) -> (r: String)
        ensures
            r@ == "Error from "@ + self.source@ + ": "@ + self.message@,
    {
        let mut s = "Error from ".to_owned();
        s.append(self.source.as_str());
        s.append(": ");
        s.append(self.message.as_str());
        s
    }
}

} // verus!
