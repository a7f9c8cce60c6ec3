use task_tracker::domain::TaskStatus;
use task_tracker::error::TaskError;
use task_tracker::repository::JsonFileTaskRepository;
use task_tracker::service::TaskManager;

fn setup_manager() -> TaskManager<JsonFileTaskRepository> {
    let repo = JsonFileTaskRepository::new("tasks.json");
    TaskManager::new(repo)
}

#[test]
fn test_add_and_get_task() {
    let mut manager = setup_manager();
    let task = manager.add_task("Buy milk").unwrap();
    assert_eq!(task.id, 1);
    assert_eq!(task.description, "Buy milk");
    assert_eq!(task.status, TaskStatus::Todo);

    let fetched = manager.get_task(1).unwrap();
    assert_eq!(fetched, task);
}

#[test]
fn test_update_task() {
    let mut manager = setup_manager();
    manager.add_task("Initial task").unwrap();

    let updated = manager.update_task(1, "Updated task").unwrap();
    assert_eq!(updated.description, "Updated task");
}

#[test]
fn test_update_non_existent_task() {
    let mut manager = setup_manager();
    let err = manager.update_task(99, "Updated task").unwrap_err();
    assert!(matches!(err, TaskError::TaskNotFound(99)));
}

#[test]
fn task_manager_test_delete_task() {
    let mut manager = setup_manager();
    manager.add_task("Task to delete").unwrap();
    manager.delete_task(1).unwrap();

    let err = manager.get_task(1).unwrap_err();
    assert!(matches!(err, TaskError::TaskNotFound(1)));
}

#[test]
fn test_mark_in_progress_and_done() {
    let mut manager = setup_manager();
    manager.add_task("Flow task").unwrap();

    let in_progress = manager.mark_in_progress(1).unwrap();
    assert_eq!(in_progress.status, TaskStatus::InProgress);

    let done = manager.mark_done(1).unwrap();
    assert_eq!(done.status, TaskStatus::Done);
}

#[test]
fn test_list_tasks_with_filtering() {
    let mut manager = setup_manager();
    manager.add_task("Task 1").unwrap();
    manager.add_task("Task 2").unwrap();
    manager.add_task("Task 3").unwrap();

    manager.mark_in_progress(2).unwrap();
    manager.mark_done(3).unwrap();

    let all = manager.list_tasks(None).unwrap();
    assert_eq!(all.len(), 3);

    let todo = manager.list_tasks(Some(TaskStatus::Todo)).unwrap();
    assert_eq!(todo.len(), 1);
    assert_eq!(todo[0].id, 1);

    let in_prog = manager.list_tasks(Some(TaskStatus::InProgress)).unwrap();
    assert_eq!(in_prog.len(), 1);
    assert_eq!(in_prog[0].id, 2);

    let done = manager.list_tasks(Some(TaskStatus::Done)).unwrap();
    assert_eq!(done.len(), 1);
    assert_eq!(done[0].id, 3);
}

#[test]
fn add_rejects_blank_description_and_changes_nothing() {
    let mut manager = setup_manager();
    let err = manager.add_task(" \t ").unwrap_err();
    assert!(matches!(err, TaskError::EmptyDescription));
    assert!(manager.list_tasks(None).unwrap().is_empty());
    assert!(!manager.repository().pending_write());
}

#[test]
fn ids_keep_growing_after_delete_of_the_last() {
    let mut manager = setup_manager();
    manager.add_task("a").unwrap();
    manager.add_task("b").unwrap();
    manager.delete_task(1).unwrap();
    let c = manager.add_task("c").unwrap();
    assert_eq!(c.id, 3);
    manager.delete_task(3).unwrap();
    let d = manager.add_task("d").unwrap();
    assert_eq!(d.id, 3);
}

#[test]
fn read_gives_back_write() {
    let mut manager = setup_manager();
    let t = manager.add_task("  Write tests  ").unwrap();
    assert_eq!(t.description, "Write tests");
    assert_eq!(manager.get_task(t.id).unwrap(), t);
    let u = manager.update_task(t.id, "Write more tests").unwrap();
    assert_eq!(manager.get_task(t.id).unwrap(), u);
    assert_eq!(u.created_at, t.created_at);
    assert_eq!(u.status, TaskStatus::Todo);
}

#[test]
fn missing_task_errors() {
    let mut manager = setup_manager();
    assert!(matches!(manager.mark_in_progress(4), Err(TaskError::TaskNotFound(4))));
    assert!(matches!(manager.mark_done(5), Err(TaskError::TaskNotFound(5))));
    assert!(matches!(manager.delete_task(6), Err(TaskError::TaskNotFound(6))));
    assert!(matches!(manager.get_task(7), Err(TaskError::TaskNotFound(7))));
    manager.add_task("x").unwrap();
    assert!(matches!(
        manager.update_task(1, "  "),
        Err(TaskError::EmptyDescription)
    ));
    assert_eq!(manager.get_task(1).unwrap().description, "x");
}

#[test]
fn status_lists_partition_all_tasks() {
    let mut manager = setup_manager();
    for d in ["a", "b", "c", "d", "e"] {
        manager.add_task(d).unwrap();
    }
    manager.mark_done(2).unwrap();
    manager.mark_in_progress(4).unwrap();
    manager.mark_done(5).unwrap();
    let todo = manager.list_tasks(Some(TaskStatus::Todo)).unwrap();
    let prog = manager.list_tasks(Some(TaskStatus::InProgress)).unwrap();
    let done = manager.list_tasks(Some(TaskStatus::Done)).unwrap();
    assert_eq!(todo.len() + prog.len() + done.len(), 5);
    assert_eq!(done.iter().map(|t| t.id).collect::<Vec<_>>(), vec![2, 5]);
    assert!(todo.iter().all(|t| t.status == TaskStatus::Todo));
}

#[test]
fn into_repository_returns_changes() {
    let mut manager = setup_manager();
    manager.add_task("persist me").unwrap();
    let repo = manager.into_repository();
    assert!(repo.pending_write());
    assert_eq!(repo.tasks().len(), 1);
}

#[test]
fn use_cases_stamp_the_given_time() {
    let mut manager = setup_manager();
    let t = manager.add_task_at(" Stamp ", "2026-01-01T00:00:00+00:00".to_string()).unwrap();
    assert_eq!(t.created_at, "2026-01-01T00:00:00+00:00");
    assert_eq!(t.updated_at, "2026-01-01T00:00:00+00:00");
    assert_eq!(t.description, "Stamp");
    let u = manager.update_task_at(t.id, "Stamped", "2026-01-02T00:00:00+00:00".to_string()).unwrap();
    assert_eq!(u.updated_at, "2026-01-02T00:00:00+00:00");
    assert_eq!(u.created_at, "2026-01-01T00:00:00+00:00");
    let p = manager.mark_in_progress_at(t.id, "2026-01-03T00:00:00+00:00".to_string()).unwrap();
    assert_eq!(p.updated_at, "2026-01-03T00:00:00+00:00");
    assert_eq!(p.status, TaskStatus::InProgress);
    assert_eq!(p.description, "Stamped");
    let d = manager.mark_done_at(t.id, "2026-01-04T00:00:00+00:00".to_string()).unwrap();
    assert_eq!(d.updated_at, "2026-01-04T00:00:00+00:00");
    assert_eq!(d.status, TaskStatus::Done);
    assert_eq!(manager.get_task(t.id).unwrap(), d);
    assert!(matches!(
        manager.mark_done_at(9, "x".to_string()),
        Err(TaskError::TaskNotFound(9))
    ));
}
