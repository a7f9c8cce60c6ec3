//! The interface of a task store.
use super::model::{has_id, lookup, max_id, option_view, task_views, upsert, without_id};
use crate::domain::task::{Task, TaskView};
use crate::error::{is_storage_error, TaskError, TaskErrorView};
use vstd::prelude::*;

verus! {

/// What a read answers: the failure, when the store has one, else `value`.
pub open spec fn read_answer<T>(read_failure: Option<TaskErrorView>, value: T) -> Result<
    T,
    TaskErrorView,
> {
    match read_failure {
        Some(e) => Err(e),
        None => Ok(value),
    }
}

/// What a write answers: reading comes first, so the read failure wins;
/// then the write failure; else `value`.
pub open spec fn write_answer<T>(
    read_failure: Option<TaskErrorView>,
    write_failure: Option<TaskErrorView>,
    value: T,
) -> Result<T, TaskErrorView> {
    match read_failure {
        Some(e) => Err(e),
        None => match write_failure {
            Some(e) => Err(e),
            None => Ok(value),
        },
    }
}

/// What `delete` answers: the read failure, else `false` when no task has
/// the id (nothing is written), else the write failure, else `true`.
pub open spec fn delete_answer(
    read_failure: Option<TaskErrorView>,
    write_failure: Option<TaskErrorView>,
    present: bool,
) -> Result<bool, TaskErrorView> {
    match read_failure {
        Some(e) => Err(e),
        None => if !present {
            Ok(false)
        } else {
            write_answer(None, write_failure, true)
        },
    }
}

/// A list of tasks, or an error, taken by views.
pub open spec fn tasks_result_view(r: Result<Vec<Task>, TaskError>) -> Result<
    Seq<TaskView>,
    TaskErrorView,
> {
    match r {
        Ok(v) => Ok(task_views(v@)),
        Err(e) => Err(e@),
    }
}

/// An optional task, or an error, taken by views.
pub open spec fn option_result_view(r: Result<Option<Task>, TaskError>) -> Result<
    Option<TaskView>,
    TaskErrorView,
> {
    match r {
        Ok(o) => Ok(option_view(o)),
        Err(e) => Err(e@),
    }
}

/// A task, or an error, taken by views.
pub open spec fn task_result_view(r: Result<Task, TaskError>) -> Result<TaskView, TaskErrorView> {
    match r {
        Ok(t) => Ok(t@),
        Err(e) => Err(e@),
    }
}

/// Persistence operations for tasks. A store holds a sequence of tasks;
/// reads report it, `save` inserts or replaces by id, `delete` removes by id.
/// A store may be unable to read or to write; each operation then fails
/// with that error, a `Storage` or `Serialization` error, and leaves the
/// held tasks as they were.
pub trait TaskRepository: Sized {
    /// The tasks held, in storage order.
    spec fn stored(&self) -> Seq<TaskView>;

    /// The error that reading the store gives, when it cannot be read.
    spec fn read_failure(&self) -> Option<TaskErrorView>;

    /// The error that writing the store gives, when it cannot be written.
    spec fn write_failure(&self) -> Option<TaskErrorView>;

    /// Retrieves all tasks.
    fn find_all(&self) -> (r: Result<Vec<Task>, TaskError>)
        ensures
            tasks_result_view(r) == read_answer(self.read_failure(), self.stored()),
            r matches Err(e) ==> is_storage_error(e@),
    ;

    /// Retrieves the first task with the given id, if any.
    fn find_by_id(&self, id: u64) -> (r: Result<Option<Task>, TaskError>)
        ensures
            option_result_view(r) == read_answer(self.read_failure(), lookup(self.stored(), id)),
            r matches Err(e) ==> is_storage_error(e@),
    ;

    /// Saves a new or updated task: it replaces the first task with its id,
    /// or is appended when no task has its id. Returns the saved task.
    fn save(&mut self, task: Task) -> (r: Result<Task, TaskError>)
        ensures
            task_result_view(r) == write_answer(
                old(self).read_failure(),
                old(self).write_failure(),
                task@,
            ),
            r is Ok ==> final(self).stored() == upsert(old(self).stored(), task@),
            r is Err ==> final(self).stored() == old(self).stored(),
            r matches Err(e) ==> is_storage_error(e@),
            final(self).read_failure() == old(self).read_failure(),
            final(self).write_failure() == old(self).write_failure(),
    ;

    /// Deletes the tasks with the given id. Returns whether there was one.
    fn delete(&mut self, id: u64) -> (r: Result<bool, TaskError>)
        ensures
            crate::error::result_view(r) == delete_answer(
                old(self).read_failure(),
                old(self).write_failure(),
                has_id(old(self).stored(), id),
            ),
            r is Ok ==> final(self).stored() == without_id(old(self).stored(), id),
            r is Err ==> final(self).stored() == old(self).stored(),
            r matches Err(e) ==> is_storage_error(e@),
            final(self).read_failure() == old(self).read_failure(),
            final(self).write_failure() == old(self).write_failure(),
    ;

    /// The next id to give a task: one more than the greatest id held.
    fn next_id(&self) -> (r: Result<u64, TaskError>)
        requires
            max_id(self.stored()) < u64::MAX,
        ensures
            crate::error::result_view(r) == read_answer(
                self.read_failure(),
                (max_id(self.stored()) + 1) as u64,
            ),
            r matches Err(e) ==> is_storage_error(e@),
    ;
}

} // verus!
