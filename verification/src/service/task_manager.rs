//! The application service that runs the task use cases on a repository.
use crate::domain::status::TaskStatus;
use crate::domain::task::{now_rfc3339, valid_description, Task, TaskView};
use crate::error::{is_storage_error, TaskError, TaskErrorView};
use crate::repository::model::{
    has_id, lemma_next_id_is_fresh, lemma_save_fresh_appends, lemma_with_status_push, lookup,
    max_id, task_views, upsert, with_status, without_id, lemma_task_views_push,
};
use crate::repository::traits::{read_answer, task_result_view, tasks_result_view, write_answer, TaskRepository};
use crate::text::trimmed;
use vstd::prelude::*;

verus! {

/// Runs the task use cases on a repository.
pub struct TaskManager<R> {
    repository: R,
}

/// What a use case that changes one existing task leaves in the store, and
/// what it returns: the task found for `id` with `change` applied. Errors
/// other than the storage's own leave the store as it was.
pub open spec fn changes_found_task(
    before: Seq<TaskView>,
    after: Seq<TaskView>,
    id: u64,
    r: Result<TaskView, TaskErrorView>,
) -> bool {
    &&& r matches Ok(t) ==> {
        &&& lookup(before, id) is Some
        &&& t.id == id
        &&& t.created_at == lookup(before, id)->0.created_at
        &&& after == upsert(before, t)
    }
    &&& r matches Err(e) ==> after == before
    &&& r matches Err(TaskErrorView::TaskNotFound(x)) ==> x == id && lookup(before, id) is None
}

/// What adding a task with `description` leaves in the store: `t`, with the
/// next id, the description without surrounding white space, status `Todo`
/// and equal timestamps, appended to what was there.
pub open spec fn adds_task(
    before: Seq<TaskView>,
    after: Seq<TaskView>,
    description: Seq<char>,
    t: TaskView,
) -> bool {
    &&& t.id == max_id(before) + 1
    &&& t.description == trimmed(description)
    &&& t.status == TaskStatus::Todo
    &&& t.created_at == t.updated_at
    &&& after == before.push(t)
}

/// The task that adding `description` at the time `now` creates.
pub open spec fn new_task(before: Seq<TaskView>, description: Seq<char>, now: Seq<char>) -> TaskView {
    TaskView {
        id: (max_id(before) + 1) as u64,
        description: trimmed(description),
        status: TaskStatus::Todo,
        created_at: now,
        updated_at: now,
    }
}

/// What `get_task` answers: the read failure, else the task found, else
/// `TaskNotFound`.
pub open spec fn get_outcome(
    before: Seq<TaskView>,
    read_failure: Option<TaskErrorView>,
    id: u64,
) -> Result<TaskView, TaskErrorView> {
    match read_failure {
        Some(e) => Err(e),
        None => match lookup(before, id) {
            Some(t) => Ok(t),
            None => Err(TaskErrorView::TaskNotFound(id)),
        },
    }
}

/// What `list_tasks` answers: the read failure, else the tasks, all of them
/// or those with the status asked for.
pub open spec fn list_outcome(
    before: Seq<TaskView>,
    read_failure: Option<TaskErrorView>,
    status_filter: Option<TaskStatus>,
) -> Result<Seq<TaskView>, TaskErrorView> {
    read_answer(
        read_failure,
        match status_filter {
            Some(s) => with_status(before, s),
            None => before,
        },
    )
}

/// What adding `description` at the time `now` answers: the read failure
/// (when the next id is read), else `EmptyDescription` for a blank
/// description, else the write failure (when the task is saved), else the
/// new task.
pub open spec fn add_outcome(
    before: Seq<TaskView>,
    read_failure: Option<TaskErrorView>,
    write_failure: Option<TaskErrorView>,
    description: Seq<char>,
    now: Seq<char>,
) -> Result<TaskView, TaskErrorView> {
    match read_failure {
        Some(e) => Err(e),
        None => if !valid_description(description) {
            Err(TaskErrorView::EmptyDescription)
        } else {
            write_answer(None, write_failure, new_task(before, description, now))
        },
    }
}

/// What changing the task with `id` answers: the read failure, else
/// `TaskNotFound`, else what `change` gives for the task found (an error,
/// or the changed task, which is then saved and meets the write failure).
pub open spec fn change_outcome(
    before: Seq<TaskView>,
    read_failure: Option<TaskErrorView>,
    write_failure: Option<TaskErrorView>,
    id: u64,
    changed: Result<TaskView, TaskErrorView>,
) -> Result<TaskView, TaskErrorView> {
    match read_failure {
        Some(e) => Err(e),
        None => match lookup(before, id) {
            None => Err(TaskErrorView::TaskNotFound(id)),
            Some(_) => match changed {
                Err(e) => Err(e),
                Ok(t) => write_answer(None, write_failure, t),
            },
        },
    }
}

/// The task with `id` given `description` at the time `now`, or
/// `EmptyDescription` for a blank description.
pub open spec fn described(
    before: Seq<TaskView>,
    id: u64,
    description: Seq<char>,
    now: Seq<char>,
) -> Result<TaskView, TaskErrorView> {
    if valid_description(description) {
        Ok(TaskView { description: trimmed(description), updated_at: now, ..lookup(before, id)->0 })
    } else {
        Err(TaskErrorView::EmptyDescription)
    }
}

/// The task with `id` given `status` at the time `now`.
pub open spec fn restatused(
    before: Seq<TaskView>,
    id: u64,
    status: TaskStatus,
    now: Seq<char>,
) -> Result<TaskView, TaskErrorView> {
    Ok(TaskView { status, updated_at: now, ..lookup(before, id)->0 })
}

/// What `delete_task` answers: the read failure, else `TaskNotFound` when
/// no task has the id, else the write failure, else success.
pub open spec fn delete_outcome(
    before: Seq<TaskView>,
    read_failure: Option<TaskErrorView>,
    write_failure: Option<TaskErrorView>,
    id: u64,
) -> Result<(), TaskErrorView> {
    match read_failure {
        Some(e) => Err(e),
        None => if !has_id(before, id) {
            Err(TaskErrorView::TaskNotFound(id))
        } else {
            write_answer(None, write_failure, ())
        },
    }
}

impl<R: TaskRepository> TaskManager<R> {
    /// The repository that the manager works on.
    pub closed spec fn repo(&self) -> R {
        self.repository
    }

    /// The tasks that the repository holds.
    pub open spec fn stored(&self) -> Seq<TaskView> {
        self.repo().stored()
    }

    /// The error that reading the repository gives, when it cannot be read.
    pub open spec fn read_failure(&self) -> Option<TaskErrorView> {
        self.repo().read_failure()
    }

    /// The error that writing the repository gives, when it cannot be written.
    pub open spec fn write_failure(&self) -> Option<TaskErrorView> {
        self.repo().write_failure()
    }

    /// Whether the repository can be read and written.
    pub open spec fn reliable(&self) -> bool {
        self.read_failure() is None && self.write_failure() is None
    }

    /// A manager working on `repository`.
    pub fn new(repository: R) -> (r: Self)
        ensures
            r.repo() == repository,
    {
        TaskManager { repository }
    }

    /// The repository that the manager works on.
    pub fn repository(&self) -> (r: &R)
        ensures
            *r == self.repo(),
    {
        &self.repository
    }

    /// Gives back the repository.
    pub fn into_repository(self) -> (r: R)
        ensures
            r == self.repo(),
    {
        self.repository
    }

    /// Adds a task with the next id, the description without surrounding
    /// white space, status `Todo`, and the current time as both timestamps.
    ///
    /// Fails with `EmptyDescription` when the description is white space
    /// only; the store is left as it was on every failure.
    pub fn add_task(&mut self, description: &str) -> (r: Result<Task, TaskError>)
        requires
            max_id(old(self).stored()) < u64::MAX,
        ensures
            exists|now: Seq<char>| task_result_view(r) == add_outcome(old(self).stored(), old(self).read_failure(), old(self).write_failure(), description@, now),
            r matches Ok(t) ==> adds_task(old(self).stored(), final(self).stored(), description@, t@),
            r matches Err(e) ==> final(self).stored() == old(self).stored() && (e@
                == TaskErrorView::EmptyDescription || is_storage_error(e@)),
            r matches Err(TaskError::EmptyDescription) ==> !valid_description(description@),
            !valid_description(description@) ==> r is Err,
            old(self).reliable() ==> (r is Ok <==> valid_description(description@)),
            old(self).reliable() ==> (r matches Err(e) ==> e@ == TaskErrorView::EmptyDescription),
            final(self).read_failure() == old(self).read_failure(),
            final(self).write_failure() == old(self).write_failure(),
    {
        let now = now_rfc3339();
        self.add_task_at(description, now)
    }

    /// Adds a task as `add_task` does, with the time `now` as both
    /// timestamps.
    pub fn add_task_at(&mut self, description: &str, now: String) -> (r: Result<Task, TaskError>)
        requires
            max_id(old(self).stored()) < u64::MAX,
        ensures
            task_result_view(r) == add_outcome(old(self).stored(), old(self).read_failure(), old(self).write_failure(), description@, now@),
            r matches Ok(t) ==> adds_task(old(self).stored(), final(self).stored(), description@, t@)
                && t@.created_at == now@,
            r matches Err(e) ==> final(self).stored() == old(self).stored() && (e@
                == TaskErrorView::EmptyDescription || is_storage_error(e@)),
            r matches Err(TaskError::EmptyDescription) ==> !valid_description(description@),
            !valid_description(description@) ==> r is Err,
            old(self).reliable() ==> (r is Ok <==> valid_description(description@)),
            old(self).reliable() ==> (r matches Err(e) ==> e@ == TaskErrorView::EmptyDescription),
            final(self).read_failure() == old(self).read_failure(),
            final(self).write_failure() == old(self).write_failure(),
    {
        let next_id = match self.repository.next_id() {
            Ok(n) => n,
            Err(e) => return Err(e),
        };
        let task = match Task::with_timestamps(
            next_id,
            description,
            TaskStatus::Todo,
            now.clone(),
            now,
        ) {
            Ok(t) => t,
            Err(e) => return Err(e),
        };
        proof {
            lemma_next_id_is_fresh(self.stored());
            lemma_save_fresh_appends(self.stored(), task@);
        }
        self.repository.save(task)
    }

    /// Finds the task with the given id, or fails with `TaskNotFound`.
    fn find_existing(&self, id: u64) -> (r: Result<Task, TaskError>)
        ensures
            task_result_view(r) == get_outcome(self.stored(), self.read_failure(), id),
            r matches Ok(t) ==> lookup(self.stored(), id) == Some(t@) && t@.id == id,
            r matches Err(e) ==> is_storage_error(e@) || e@ == TaskErrorView::TaskNotFound(id),
            r matches Err(TaskError::TaskNotFound(x)) ==> x == id && lookup(self.stored(), id) is None,
            self.reliable() ==> (r is Ok <==> lookup(self.stored(), id) is Some),
            self.reliable() ==> (r matches Err(e) ==> e@ == TaskErrorView::TaskNotFound(id)),
    {
        proof {
            crate::repository::model::lemma_index_of_id(self.stored(), id);
        }
        match self.repository.find_by_id(id) {
            Ok(Some(t)) => Ok(t),
            Ok(None) => Err(TaskError::TaskNotFound(id)),
            Err(e) => Err(e),
        }
    }

    /// Replaces the description of the task with the given id and stamps
    /// it with the current time.
    ///
    /// Fails with `TaskNotFound` when no task has the id and with
    /// `EmptyDescription` when the description is white space only.
    pub fn update_task(&mut self, id: u64, description: &str) -> (r: Result<Task, TaskError>)
        ensures
            exists|now: Seq<char>| task_result_view(r) == change_outcome(old(self).stored(), old(self).read_failure(), old(self).write_failure(), id, described(old(self).stored(), id, description@, now)),
            changes_found_task(old(self).stored(), final(self).stored(), id, task_result_view(r)),
            r matches Ok(t) ==> {
                &&& t@.description == trimmed(description@)
                &&& t@.status == lookup(old(self).stored(), id)->0.status
            },
            r matches Err(e) ==> is_storage_error(e@) || e@ == TaskErrorView::TaskNotFound(id)
                || e@ == TaskErrorView::EmptyDescription,
            r matches Err(TaskError::EmptyDescription) ==> lookup(old(self).stored(), id) is Some
                && !valid_description(description@),
            old(self).reliable() && lookup(old(self).stored(), id) is None ==> (r matches Err(
                TaskError::TaskNotFound(_),
            )),
            old(self).reliable() && lookup(old(self).stored(), id) is Some && !valid_description(
                description@,
            ) ==> (r matches Err(TaskError::EmptyDescription)),
            old(self).reliable() && lookup(old(self).stored(), id) is Some && valid_description(
                description@,
            ) ==> r is Ok,
            final(self).read_failure() == old(self).read_failure(),
            final(self).write_failure() == old(self).write_failure(),
    {
        let now = now_rfc3339();
        self.update_task_at(id, description, now)
    }

    /// Replaces the description of the task with the given id, as
    /// `update_task` does, and stamps it with the time `now`.
    pub fn update_task_at(&mut self, id: u64, description: &str, now: String) -> (r: Result<
        Task,
        TaskError,
    >)
        ensures
            task_result_view(r) == change_outcome(old(self).stored(), old(self).read_failure(), old(self).write_failure(), id, described(old(self).stored(), id, description@, now@)),
            changes_found_task(old(self).stored(), final(self).stored(), id, task_result_view(r)),
            r matches Ok(t) ==> {
                &&& t@.description == trimmed(description@)
                &&& t@.status == lookup(old(self).stored(), id)->0.status
            },
            r matches Err(e) ==> is_storage_error(e@) || e@ == TaskErrorView::TaskNotFound(id)
                || e@ == TaskErrorView::EmptyDescription,
            r matches Err(TaskError::EmptyDescription) ==> lookup(old(self).stored(), id) is Some
                && !valid_description(description@),
            old(self).reliable() && lookup(old(self).stored(), id) is None ==> (r matches Err(
                TaskError::TaskNotFound(_),
            )),
            old(self).reliable() && lookup(old(self).stored(), id) is Some && !valid_description(
                description@,
            ) ==> (r matches Err(TaskError::EmptyDescription)),
            old(self).reliable() && lookup(old(self).stored(), id) is Some && valid_description(
                description@,
            ) ==> r is Ok,
            final(self).read_failure() == old(self).read_failure(),
            final(self).write_failure() == old(self).write_failure(),
            r matches Ok(t) ==> t@ == (TaskView {
                description: trimmed(description@),
                updated_at: now@,
                ..lookup(old(self).stored(), id)->0
            }),
    {
        let mut task = match self.find_existing(id) {
            Ok(t) => t,
            Err(e) => return Err(e),
        };
        match task.update_description_at(description, now) {
            Ok(()) => {},
            Err(e) => return Err(e),
        }
        self.repository.save(task)
    }

    /// Sets the status of the task with the given id and stamps it with the
    /// time `now`.
    fn change_status_at(&mut self, id: u64, status: TaskStatus, now: String) -> (r: Result<
        Task,
        TaskError,
    >)
        ensures
            task_result_view(r) == change_outcome(old(self).stored(), old(self).read_failure(), old(self).write_failure(), id, restatused(old(self).stored(), id, status, now@)),
            changes_found_task(old(self).stored(), final(self).stored(), id, task_result_view(r)),
            r matches Ok(t) ==> {
                &&& t@.description == lookup(old(self).stored(), id)->0.description
                &&& t@.status == status
            },
            r matches Err(e) ==> is_storage_error(e@) || e@ == TaskErrorView::TaskNotFound(id),
            old(self).reliable() ==> (r is Ok <==> lookup(old(self).stored(), id) is Some),
            old(self).reliable() ==> (r matches Err(e) ==> e@ == TaskErrorView::TaskNotFound(id)),
            final(self).read_failure() == old(self).read_failure(),
            final(self).write_failure() == old(self).write_failure(),
            r matches Ok(t) ==> t@ == (TaskView {
                status,
                updated_at: now@,
                ..lookup(old(self).stored(), id)->0
            }),
    {
        let mut task = match self.find_existing(id) {
            Ok(t) => t,
            Err(e) => return Err(e),
        };
        task.set_status_at(status, now);
        self.repository.save(task)
    }

    /// Marks the task with the given id as in progress.
    ///
    /// Fails with `TaskNotFound` when no task has the id.
    pub fn mark_in_progress(&mut self, id: u64) -> (r: Result<Task, TaskError>)
        ensures
            exists|now: Seq<char>| task_result_view(r) == change_outcome(old(self).stored(), old(self).read_failure(), old(self).write_failure(), id, restatused(old(self).stored(), id, TaskStatus::InProgress, now)),
            changes_found_task(old(self).stored(), final(self).stored(), id, task_result_view(r)),
            r matches Ok(t) ==> {
                &&& t@.description == lookup(old(self).stored(), id)->0.description
                &&& t@.status == TaskStatus::InProgress
            },
            r matches Err(e) ==> is_storage_error(e@) || e@ == TaskErrorView::TaskNotFound(id),
            old(self).reliable() ==> (r is Ok <==> lookup(old(self).stored(), id) is Some),
            old(self).reliable() ==> (r matches Err(e) ==> e@ == TaskErrorView::TaskNotFound(id)),
            final(self).read_failure() == old(self).read_failure(),
            final(self).write_failure() == old(self).write_failure(),
    {
        let now = now_rfc3339();
        self.change_status_at(id, TaskStatus::InProgress, now)
    }

    /// Marks the task with the given id as in progress, as `mark_in_progress` does, and stamps
    /// it with the time `now`.
    pub fn mark_in_progress_at(&mut self, id: u64, now: String) -> (r: Result<Task, TaskError>)
        ensures
            task_result_view(r) == change_outcome(old(self).stored(), old(self).read_failure(), old(self).write_failure(), id, restatused(old(self).stored(), id, TaskStatus::InProgress, now@)),
            changes_found_task(old(self).stored(), final(self).stored(), id, task_result_view(r)),
            r matches Ok(t) ==> {
                &&& t@.description == lookup(old(self).stored(), id)->0.description
                &&& t@.status == TaskStatus::InProgress
            },
            r matches Err(e) ==> is_storage_error(e@) || e@ == TaskErrorView::TaskNotFound(id),
            old(self).reliable() ==> (r is Ok <==> lookup(old(self).stored(), id) is Some),
            old(self).reliable() ==> (r matches Err(e) ==> e@ == TaskErrorView::TaskNotFound(id)),
            final(self).read_failure() == old(self).read_failure(),
            final(self).write_failure() == old(self).write_failure(),
            r matches Ok(t) ==> t@ == (TaskView {
                status: TaskStatus::InProgress,
                updated_at: now@,
                ..lookup(old(self).stored(), id)->0
            }),
    {
        self.change_status_at(id, TaskStatus::InProgress, now)
    }

    /// Marks the task with the given id as done.
    ///
    /// Fails with `TaskNotFound` when no task has the id.
    pub fn mark_done(&mut self, id: u64) -> (r: Result<Task, TaskError>)
        ensures
            exists|now: Seq<char>| task_result_view(r) == change_outcome(old(self).stored(), old(self).read_failure(), old(self).write_failure(), id, restatused(old(self).stored(), id, TaskStatus::Done, now)),
            changes_found_task(old(self).stored(), final(self).stored(), id, task_result_view(r)),
            r matches Ok(t) ==> {
                &&& t@.description == lookup(old(self).stored(), id)->0.description
                &&& t@.status == TaskStatus::Done
            },
            r matches Err(e) ==> is_storage_error(e@) || e@ == TaskErrorView::TaskNotFound(id),
            old(self).reliable() ==> (r is Ok <==> lookup(old(self).stored(), id) is Some),
            old(self).reliable() ==> (r matches Err(e) ==> e@ == TaskErrorView::TaskNotFound(id)),
            final(self).read_failure() == old(self).read_failure(),
            final(self).write_failure() == old(self).write_failure(),
    {
        let now = now_rfc3339();
        self.change_status_at(id, TaskStatus::Done, now)
    }

    /// Marks the task with the given id as done, as `mark_done` does, and stamps
    /// it with the time `now`.
    pub fn mark_done_at(&mut self, id: u64, now: String) -> (r: Result<Task, TaskError>)
        ensures
            task_result_view(r) == change_outcome(old(self).stored(), old(self).read_failure(), old(self).write_failure(), id, restatused(old(self).stored(), id, TaskStatus::Done, now@)),
            changes_found_task(old(self).stored(), final(self).stored(), id, task_result_view(r)),
            r matches Ok(t) ==> {
                &&& t@.description == lookup(old(self).stored(), id)->0.description
                &&& t@.status == TaskStatus::Done
            },
            r matches Err(e) ==> is_storage_error(e@) || e@ == TaskErrorView::TaskNotFound(id),
            old(self).reliable() ==> (r is Ok <==> lookup(old(self).stored(), id) is Some),
            old(self).reliable() ==> (r matches Err(e) ==> e@ == TaskErrorView::TaskNotFound(id)),
            final(self).read_failure() == old(self).read_failure(),
            final(self).write_failure() == old(self).write_failure(),
            r matches Ok(t) ==> t@ == (TaskView {
                status: TaskStatus::Done,
                updated_at: now@,
                ..lookup(old(self).stored(), id)->0
            }),
    {
        self.change_status_at(id, TaskStatus::Done, now)
    }

    /// Deletes the tasks with the given id.
    ///
    /// Fails with `TaskNotFound` when no task has the id.
    pub fn delete_task(&mut self, id: u64) -> (r: Result<(), TaskError>)
        ensures
            crate::error::result_view(r) == delete_outcome(old(self).stored(), old(self).read_failure(), old(self).write_failure(), id),
            r is Ok ==> has_id(old(self).stored(), id) && final(self).stored() == without_id(
                old(self).stored(),
                id,
            ),
            r matches Err(e) ==> final(self).stored() == old(self).stored() && (is_storage_error(
                e@,
            ) || e@ == TaskErrorView::TaskNotFound(id)),
            r matches Err(TaskError::TaskNotFound(x)) ==> x == id && !has_id(old(self).stored(), id),
            old(self).reliable() ==> (r is Ok <==> has_id(old(self).stored(), id)),
            old(self).reliable() ==> (r matches Err(e) ==> e@ == TaskErrorView::TaskNotFound(id)),
            final(self).read_failure() == old(self).read_failure(),
            final(self).write_failure() == old(self).write_failure(),
    {
        proof {
            crate::repository::model::lemma_delete_changes_iff_present(self.stored(), id);
        }
        match self.repository.delete(id) {
            Ok(true) => Ok(()),
            Ok(false) => Err(TaskError::TaskNotFound(id)),
            Err(e) => Err(e),
        }
    }

    /// The task with the given id.
    ///
    /// Fails with `TaskNotFound` when no task has the id.
    pub fn get_task(&self, id: u64) -> (r: Result<Task, TaskError>)
        ensures
            task_result_view(r) == get_outcome(self.stored(), self.read_failure(), id),
            r matches Ok(t) ==> lookup(self.stored(), id) == Some(t@),
            r matches Err(e) ==> is_storage_error(e@) || e@ == TaskErrorView::TaskNotFound(id),
            r matches Err(TaskError::TaskNotFound(x)) ==> x == id && lookup(self.stored(), id) is None,
            self.reliable() ==> (r is Ok <==> lookup(self.stored(), id) is Some),
            self.reliable() ==> (r matches Err(e) ==> e@ == TaskErrorView::TaskNotFound(id)),
    {
        self.find_existing(id)
    }

    /// All tasks in storage order, or those with the given status.
    pub fn list_tasks(&self, status_filter: Option<TaskStatus>) -> (r: Result<Vec<Task>, TaskError>)
        ensures
            tasks_result_view(r) == list_outcome(self.stored(), self.read_failure(), status_filter),
            r matches Ok(v) ==> task_views(v@) == match status_filter {
                Some(s) => with_status(self.stored(), s),
                None => self.stored(),
            },
            r matches Err(e) ==> is_storage_error(e@),
            self.reliable() ==> r is Ok,
    {
        let all_tasks = match self.repository.find_all() {
            Ok(v) => v,
            Err(e) => return Err(e),
        };
        match status_filter {
            None => Ok(all_tasks),
            Some(status) => {
                let mut out: Vec<Task> = Vec::new();
                let mut i: usize = 0;
                let n = all_tasks.len();
                while i < n
                    invariant
                        n == all_tasks@.len(),
                        i <= n,
                        task_views(out@) == with_status(
                            task_views(all_tasks@.take(i as int)),
                            status,
                        ),
                    decreases n - i,
                {
                    proof {
                        lemma_task_views_push(all_tasks@.take(i as int), all_tasks@[i as int]);
                        assert(all_tasks@.take(i + 1) =~= all_tasks@.take(i as int).push(
                            all_tasks@[i as int],
                        ));
                        lemma_with_status_push(
                            task_views(all_tasks@.take(i as int)),
                            all_tasks@[i as int]@,
                            status,
                        );
                    }
                    if all_tasks[i].status == status {
                        let t = all_tasks[i].clone();
                        proof {
                            lemma_task_views_push(out@, t);
                        }
                        out.push(t);
                    }
                    i = i + 1;
                }
                assert(all_tasks@.take(n as int) =~= all_tasks@);
                Ok(out)
            },
        }
    }
}

} // verus!
