//! The errors of the task tracker, the text each one is shown with, and the
//! HTTP status each one is answered with.
use crate::text::{decimal, join2, join3, u64_to_decimal};
use vstd::prelude::*;
use vstd::string::*;

verus! {

/// Errors of the task tracker.
#[derive(Debug)]
pub enum TaskError {
    /// A task with the specified ID was not found.
    TaskNotFound(u64),
    /// The description provided for a task is empty or white space only.
    EmptyDescription,
    /// An invalid status string was provided.
    InvalidStatus(String),
    /// An unknown or malformed command was supplied.
    InvalidCommand(String),
    /// Invalid arguments were supplied to a command.
    InvalidArgument(String),
    /// Storage failure.
    Storage(String),
    /// JSON serialization or deserialization failure.
    Serialization(String),
}

/// A `TaskError` with its texts taken as character sequences.
pub enum TaskErrorView {
    TaskNotFound(u64),
    EmptyDescription,
    InvalidStatus(Seq<char>),
    InvalidCommand(Seq<char>),
    InvalidArgument(Seq<char>),
    Storage(Seq<char>),
    Serialization(Seq<char>),
}

impl View for TaskError {
    type V = TaskErrorView;

    open spec fn view(&self) -> TaskErrorView {
        match self {
            TaskError::TaskNotFound(id) => TaskErrorView::TaskNotFound(*id),
            TaskError::EmptyDescription => TaskErrorView::EmptyDescription,
            TaskError::InvalidStatus(s) => TaskErrorView::InvalidStatus(s@),
            TaskError::InvalidCommand(s) => TaskErrorView::InvalidCommand(s@),
            TaskError::InvalidArgument(s) => TaskErrorView::InvalidArgument(s@),
            TaskError::Storage(s) => TaskErrorView::Storage(s@),
            TaskError::Serialization(s) => TaskErrorView::Serialization(s@),
        }
    }
}

/// Whether `e` is one of the errors that storage reports.
pub open spec fn is_storage_error(e: TaskErrorView) -> bool {
    e is Storage || e is Serialization
}

/// The text shown for an error.
pub open spec fn error_message(e: TaskErrorView) -> Seq<char> {
    match e {
        TaskErrorView::TaskNotFound(id) => "Task not found with ID: "@ + decimal(id as nat),
        TaskErrorView::EmptyDescription => "Task description cannot be empty"@,
        TaskErrorView::InvalidStatus(s) => "Invalid status '"@ + s
            + "'. Allowed values are: 'todo', 'in-progress', 'done'"@,
        TaskErrorView::InvalidCommand(s) => "Unknown command '"@ + s
            + "'. Run with 'help' for usage instructions."@,
        TaskErrorView::InvalidArgument(s) => "Invalid argument: "@ + s,
        TaskErrorView::Storage(s) => "Storage error: "@ + s,
        TaskErrorView::Serialization(s) => "Serialization error: "@ + s,
    }
}

/// The HTTP status code an error is answered with.
pub open spec fn http_status(e: TaskErrorView) -> u16 {
    match e {
        TaskErrorView::TaskNotFound(_) | TaskErrorView::InvalidCommand(_) => 404,
        TaskErrorView::EmptyDescription
        | TaskErrorView::InvalidStatus(_)
        | TaskErrorView::InvalidArgument(_) => 400,
        TaskErrorView::Storage(_) | TaskErrorView::Serialization(_) => 500,
    }
}

/// A `Result` whose error is taken by its view.
pub open spec fn result_view<T>(r: Result<T, TaskError>) -> Result<T, TaskErrorView> {
    match r {
        Ok(t) => Ok(t),
        Err(e) => Err(e@),
    }
}

impl TaskError {
    /// The text this error is shown with.
    pub fn message(&self) -> (r: String)
        ensures
            r@ == error_message(self@),
    {
        match self {
            TaskError::TaskNotFound(id) => {
                let digits = u64_to_decimal(*id);
                join2("Task not found with ID: ", digits.as_str())
            },
            TaskError::EmptyDescription => "Task description cannot be empty".to_owned(),
            TaskError::InvalidStatus(s) => join3(
                "Invalid status '",
                s.as_str(),
                "'. Allowed values are: 'todo', 'in-progress', 'done'",
            ),
            TaskError::InvalidCommand(s) => join3(
                "Unknown command '",
                s.as_str(),
                "'. Run with 'help' for usage instructions.",
            ),
            TaskError::InvalidArgument(s) => join2("Invalid argument: ", s.as_str()),
            TaskError::Storage(s) => join2("Storage error: ", s.as_str()),
            TaskError::Serialization(s) => join2("Serialization error: ", s.as_str()),
        }
    }

    /// The HTTP status code this error is answered with.
    pub fn status_code(&self) -> (r: u16)
        ensures
            r == http_status(self@),
    {
        match self {
            TaskError::TaskNotFound(_) | TaskError::InvalidCommand(_) => 404,
            TaskError::EmptyDescription
            | TaskError::InvalidStatus(_)
            | TaskError::InvalidArgument(_) => 400,
            TaskError::Storage(_) | TaskError::Serialization(_) => 500,
        }
    }
}

} // verus!
