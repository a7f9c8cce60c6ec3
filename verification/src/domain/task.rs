//! The task entity and the rules on its description.
use super::status::TaskStatus;
use crate::error::{TaskError, TaskErrorView};
use crate::text::{trim_str, trimmed};
use vstd::prelude::*;
use vstd::string::*;

verus! {

/// A task.
#[derive(Debug, PartialEq, Eq)]
pub struct Task {
    /// Unique numeric identifier of the task.
    pub id: u64,
    /// What the task involves; never empty, never with surrounding white space.
    pub description: String,
    /// Current status of the task.
    pub status: TaskStatus,
    /// RFC 3339 timestamp of when the task was created.
    pub created_at: String,
    /// RFC 3339 timestamp of the task's most recent change.
    pub updated_at: String,
}

/// A task with its texts taken as character sequences.
pub struct TaskView {
    pub id: u64,
    pub description: Seq<char>,
    pub status: TaskStatus,
    pub created_at: Seq<char>,
    pub updated_at: Seq<char>,
}

impl View for Task {
    type V = TaskView;

    open spec fn view(&self) -> TaskView {
        TaskView {
            id: self.id,
            description: self.description@,
            status: self.status,
            created_at: self.created_at@,
            updated_at: self.updated_at@,
        }
    }
}

impl Clone for Task {
    fn clone(&self) -> (r: Self)
        ensures
            r@ == self@,
    {
        Task {
            id: self.id,
            description: self.description.clone(),
            status: self.status,
            created_at: self.created_at.clone(),
            updated_at: self.updated_at.clone(),
        }
    }
}

/// Whether a text is acceptable as a description: something is left of it
/// once the white space around it is taken away.
pub open spec fn valid_description(s: Seq<char>) -> bool {
    trimmed(s).len() > 0
}

/// Calls `chrono::Utc::now()` and renders the instant with `to_rfc3339()`.
/// The result depends on the clock, so nothing is stated of it.
#[verifier::external_body]
pub(crate) fn now_rfc3339() -> String {
    chrono::Utc::now().to_rfc3339()
}

impl Task {
    /// Creates a task in `Todo` status, stamped with the current time.
    ///
    /// Fails with `EmptyDescription` when the description is white space only.
    pub fn new(id: u64, description: &str) -> (r: Result<Task, TaskError>)
        ensures
            r is Ok <==> valid_description(description@),
            r matches Ok(t) ==> {
                &&& t@.id == id
                &&& t@.description == trimmed(description@)
                &&& t@.status == TaskStatus::Todo
                &&& t@.created_at == t@.updated_at
            },
            r matches Err(e) ==> e@ == TaskErrorView::EmptyDescription,
    {
        let trimmed_desc = match Task::validate_description(description) {
            Ok(d) => d,
            Err(e) => return Err(e),
        };
        let now = now_rfc3339();
        Ok(Task {
            id,
            description: trimmed_desc,
            status: TaskStatus::Todo,
            created_at: now.clone(),
            updated_at: now,
        })
    }

    /// Creates a task with the given status and timestamps.
    ///
    /// Fails with `EmptyDescription` when the description is white space only.
    pub fn with_timestamps(
        id: u64,
        description: &str,
        status: TaskStatus,
        created_at: String,
        updated_at: String,
    ) -> (r: Result<Task, TaskError>)
        ensures
            r is Ok <==> valid_description(description@),
            r matches Ok(t) ==> t@ == (TaskView {
                id,
                description: trimmed(description@),
                status,
                created_at: created_at@,
                updated_at: updated_at@,
            }),
            r matches Err(e) ==> e@ == TaskErrorView::EmptyDescription,
    {
        let trimmed_desc = match Task::validate_description(description) {
            Ok(d) => d,
            Err(e) => return Err(e),
        };
        Ok(Task { id, description: trimmed_desc, status, created_at, updated_at })
    }

    /// Replaces the description and stamps the task with the current time.
    ///
    /// Fails with `EmptyDescription`, leaving the task as it was, when the
    /// new description is white space only.
    pub fn update_description(&mut self, new_description: &str) -> (r: Result<(), TaskError>)
        ensures
            r is Ok <==> valid_description(new_description@),
            r is Ok ==> {
                &&& final(self)@.id == old(self)@.id
                &&& final(self)@.description == trimmed(new_description@)
                &&& final(self)@.status == old(self)@.status
                &&& final(self)@.created_at == old(self)@.created_at
            },
            r matches Err(e) ==> e@ == TaskErrorView::EmptyDescription && final(self)@ == old(
                self,
            )@,
    {
        let now = now_rfc3339();
        self.update_description_at(new_description, now)
    }

    /// Replaces the description and stamps the task with the time `now`.
    ///
    /// Fails with `EmptyDescription`, leaving the task as it was, when the
    /// new description is white space only.
    pub fn update_description_at(&mut self, new_description: &str, now: String) -> (r: Result<
        (),
        TaskError,
    >)
        ensures
            r is Ok <==> valid_description(new_description@),
            r is Ok ==> final(self)@ == (TaskView {
                description: trimmed(new_description@),
                updated_at: now@,
                ..old(self)@
            }),
            r matches Err(e) ==> e@ == TaskErrorView::EmptyDescription && final(self)@ == old(
                self,
            )@,
    {
        let trimmed_desc = match Task::validate_description(new_description) {
            Ok(d) => d,
            Err(e) => return Err(e),
        };
        self.description = trimmed_desc;
        self.updated_at = now;
        Ok(())
    }

    /// Sets a new status and stamps the task with the current time.
    pub fn set_status(&mut self, new_status: TaskStatus)
        ensures
            final(self)@.id == old(self)@.id,
            final(self)@.description == old(self)@.description,
            final(self)@.status == new_status,
            final(self)@.created_at == old(self)@.created_at,
    {
        let now = now_rfc3339();
        self.set_status_at(new_status, now);
    }

    /// Sets a new status and stamps the task with the time `now`.
    pub fn set_status_at(&mut self, new_status: TaskStatus, now: String)
        ensures
            final(self)@ == (TaskView { status: new_status, updated_at: now@, ..old(self)@ }),
    {
        self.status = new_status;
        self.updated_at = now;
    }

    /// The description with the white space around it taken away, or
    /// `EmptyDescription` when nothing is left.
    fn validate_description(description: &str) -> (r: Result<String, TaskError>)
        ensures
            r is Ok <==> valid_description(description@),
            r matches Ok(d) ==> d@ == trimmed(description@),
            r matches Err(e) ==> e@ == TaskErrorView::EmptyDescription,
    {
        let t = trim_str(description);
        if t.unicode_len() == 0 {
            Err(TaskError::EmptyDescription)
        } else {
            Ok(t.to_owned())
        }
    }
}

} // verus!
