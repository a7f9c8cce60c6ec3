//! The repository behind the JSON task file. It holds the tasks that the
//! file held when it was read, applies every operation to them, and records
//! whether the file has to be written again.
use super::model::{
    has_id, index_of_id, lemma_delete_changes_iff_present, lemma_index_of_id,
    lemma_task_views_push, lemma_without_id_push, max_id, task_views, without_id,
};
use super::traits::TaskRepository;
use crate::domain::task::{Task, TaskView};
use crate::error::{TaskError, TaskErrorView};
use crate::text::{trim_str, trimmed};
use vstd::prelude::*;
use vstd::string::*;

verus! {

/// The tasks of one JSON task file, with the file's path.
pub struct JsonFileTaskRepository {
    file_path: String,
    tasks: Vec<Task>,
    pending_write: bool,
}

/// Whether the text of a task file holds nothing but white space, in which
/// case the file holds no task.
pub fn content_is_blank(content: &str) -> (r: bool)
    ensures
        r == (trimmed(content@).len() == 0),
{
    trim_str(content).unicode_len() == 0
}

/// A new vector with a copy of each task of `v`.
pub fn copy_tasks(v: &Vec<Task>) -> (r: Vec<Task>)
    ensures
        task_views(r@) == task_views(v@),
{
    let mut out: Vec<Task> = Vec::new();
    let mut i: usize = 0;
    while i < v.len()
        invariant
            i <= v.len(),
            task_views(out@) == task_views(v@.take(i as int)),
        decreases v.len() - i,
    {
        let t = v[i].clone();
        proof {
            lemma_task_views_push(out@, t);
            lemma_task_views_push(v@.take(i as int), v@[i as int]);
            assert(v@.take(i + 1) =~= v@.take(i as int).push(v@[i as int]));
        }
        out.push(t);
        i = i + 1;
    }
    assert(v@.take(v@.len() as int) =~= v@);
    out
}

impl JsonFileTaskRepository {
    /// The path of the file.
    pub closed spec fn path(&self) -> Seq<char> {
        self.file_path@
    }

    /// The tasks held, in file order.
    pub closed spec fn held(&self) -> Seq<TaskView> {
        task_views(self.tasks@)
    }

    /// Whether an operation changed the tasks since they were read, so
    /// that the file has to be written again.
    pub closed spec fn has_pending_write(&self) -> bool {
        self.pending_write
    }

    /// A repository for the file at `file_path`, holding no task yet.
    pub fn new(file_path: &str) -> (r: Self)
        ensures
            r.path() == file_path@,
            r.held() == Seq::<TaskView>::empty(),
            !r.has_pending_write(),
    {
        let r = JsonFileTaskRepository {
            file_path: file_path.to_owned(),
            tasks: Vec::new(),
            pending_write: false,
        };
        assert(r.held() =~= Seq::<TaskView>::empty());
        r
    }

    /// A repository for `tasks.json` in the working directory.
    pub fn default_path() -> (r: Self)
        ensures
            r.path() == "tasks.json"@,
            r.held() == Seq::<TaskView>::empty(),
            !r.has_pending_write(),
    {
        JsonFileTaskRepository::new("tasks.json")
    }

    /// A repository for the file at `file_path`, holding the tasks that
    /// were read from it.
    pub fn with_tasks(file_path: &str, tasks: Vec<Task>) -> (r: Self)
        ensures
            r.path() == file_path@,
            r.held() == task_views(tasks@),
            !r.has_pending_write(),
    {
        JsonFileTaskRepository { file_path: file_path.to_owned(), tasks, pending_write: false }
    }

    /// The path of the file.
    pub fn file_path(&self) -> (r: &str)
        ensures
            r@ == self.path(),
    {
        self.file_path.as_str()
    }

    /// The tasks held, in file order.
    pub fn tasks(&self) -> (r: &Vec<Task>)
        ensures
            task_views(r@) == self.held(),
    {
        &self.tasks
    }

    /// Whether the file has to be written again.
    pub fn pending_write(&self) -> (r: bool)
        ensures
            r == self.has_pending_write(),
    {
        self.pending_write
    }

    /// The position of the first task with the id `id`, or the number of
    /// tasks when none has it.
    fn position_of(&self, id: u64) -> (r: usize)
        ensures
            r == index_of_id(self.held(), id),
    {
        let n = self.tasks.len();
        let mut i: usize = 0;
        while i < n && self.tasks[i].id != id
            invariant
                n == self.tasks@.len(),
                i <= n,
                forall|j: int| 0 <= j < i ==> (#[trigger] self.held()[j]).id != id,
            decreases n - i,
        {
            i = i + 1;
        }
        proof {
            let s = self.held();
            lemma_index_of_id(s, id);
            let k = index_of_id(s, id);
            if i < n {
                assert(s[i as int].id == id);
                if k < i {
                    assert(s[k].id != id);
                }
            } else if k < n {
                assert(s[k].id != id);
            }
        }
        i
    }
}

impl TaskRepository for JsonFileTaskRepository {
    open spec fn stored(&self) -> Seq<TaskView> {
        self.held()
    }

    open spec fn read_failure(&self) -> Option<TaskErrorView> {
        None
    }

    open spec fn write_failure(&self) -> Option<TaskErrorView> {
        None
    }

    fn find_all(&self) -> (r: Result<Vec<Task>, TaskError>)
        ensures
            r is Ok,
    {
        Ok(copy_tasks(&self.tasks))
    }

    fn find_by_id(&self, id: u64) -> (r: Result<Option<Task>, TaskError>)
        ensures
            r is Ok,
    {
        let i = self.position_of(id);
        if i < self.tasks.len() {
            Ok(Some(self.tasks[i].clone()))
        } else {
            Ok(None)
        }
    }

    fn save(&mut self, task: Task) -> (r: Result<Task, TaskError>)
        ensures
            r is Ok,
            final(self).has_pending_write(),
            final(self).path() == old(self).path(),
    {
        let i = self.position_of(task.id);
        let saved = task.clone();
        let ghost before = self.tasks@;
        if i < self.tasks.len() {
            self.tasks.set(i, task);
            assert(task_views(self.tasks@) =~= task_views(before).update(i as int, saved@));
        } else {
            self.tasks.push(task);
            proof {
                lemma_task_views_push(before, self.tasks@.last());
            }
        }
        self.pending_write = true;
        Ok(saved)
    }

    fn delete(&mut self, id: u64) -> (r: Result<bool, TaskError>)
        ensures
            r is Ok,
            final(self).has_pending_write() == (old(self).has_pending_write() || has_id(
                old(self).held(),
                id,
            )),
            final(self).path() == old(self).path(),
    {
        let n = self.tasks.len();
        let mut kept: Vec<Task> = Vec::new();
        let mut i: usize = 0;
        while i < n
            invariant
                n == self.tasks@.len(),
                i <= n,
                task_views(kept@) == without_id(task_views(self.tasks@.take(i as int)), id),
            decreases n - i,
        {
            let ghost prefix = task_views(self.tasks@.take(i as int));
            proof {
                lemma_task_views_push(self.tasks@.take(i as int), self.tasks@[i as int]);
                assert(self.tasks@.take(i + 1) =~= self.tasks@.take(i as int).push(
                    self.tasks@[i as int],
                ));
                lemma_without_id_push(prefix, self.tasks@[i as int]@, id);
            }
            if self.tasks[i].id != id {
                let t = self.tasks[i].clone();
                proof {
                    lemma_task_views_push(kept@, t);
                }
                kept.push(t);
            }
            i = i + 1;
        }
        assert(self.tasks@.take(n as int) =~= self.tasks@);
        proof {
            lemma_delete_changes_iff_present(self.held(), id);
        }
        let removed = kept.len() < n;
        if removed {
            self.tasks = kept;
            self.pending_write = true;
        }
        Ok(removed)
    }

    fn next_id(&self) -> (r: Result<u64, TaskError>)
        ensures
            r is Ok,
    {
        let n = self.tasks.len();
        let mut m: u64 = 0;
        let mut i: usize = 0;
        while i < n
            invariant
                n == self.tasks@.len(),
                i <= n,
                m == max_id(task_views(self.tasks@.take(i as int))),
            decreases n - i,
        {
            proof {
                let a = task_views(self.tasks@.take(i + 1));
                assert(a.drop_last() =~= task_views(self.tasks@.take(i as int)));
                assert(a.last() == self.tasks@[i as int]@);
            }
            if self.tasks[i].id > m {
                m = self.tasks[i].id;
            }
            i = i + 1;
        }
        assert(self.tasks@.take(n as int) =~= self.tasks@);
        Ok(m + 1)
    }
}

} // verus!
