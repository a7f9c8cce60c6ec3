use task_tracker::domain::{Task, TaskStatus};
use task_tracker::repository::json_file::content_is_blank;
use task_tracker::repository::{JsonFileTaskRepository, TaskRepository};

#[test]
fn test_empty_repository_initialization() {
    let repo = JsonFileTaskRepository::new("tasks.json");

    let tasks = repo.find_all().unwrap();
    assert!(tasks.is_empty());
}

#[test]
fn test_save_and_find_tasks() {
    let mut repo = JsonFileTaskRepository::new("tasks.json");

    let id = repo.next_id().unwrap();
    assert_eq!(id, 1);

    let task1 = Task::new(id, "Task 1").unwrap();
    repo.save(task1.clone()).unwrap();

    let loaded = repo.find_by_id(1).unwrap();
    assert_eq!(loaded, Some(task1));

    let id2 = repo.next_id().unwrap();
    assert_eq!(id2, 2);
}

#[test]
fn test_update_existing_task() {
    let mut repo = JsonFileTaskRepository::new("tasks.json");

    let mut task = Task::new(1, "Initial description").unwrap();
    repo.save(task.clone()).unwrap();

    task.update_description("Updated description").unwrap();
    task.set_status(TaskStatus::InProgress);
    repo.save(task.clone()).unwrap();

    let loaded = repo.find_by_id(1).unwrap().unwrap();
    assert_eq!(loaded.description, "Updated description");
    assert_eq!(loaded.status, TaskStatus::InProgress);
}

#[test]
fn json_file_test_delete_task() {
    let mut repo = JsonFileTaskRepository::new("tasks.json");

    let task = Task::new(1, "Task to delete").unwrap();
    repo.save(task).unwrap();

    assert!(repo.delete(1).unwrap());
    assert!(!repo.delete(1).unwrap());
    assert_eq!(repo.find_all().unwrap().len(), 0);
}

fn task(id: u64, d: &str) -> Task {
    Task::with_timestamps(id, d, TaskStatus::Todo, "c".to_string(), "u".to_string()).unwrap()
}

#[test]
fn repository_paths_and_initial_state() {
    let repo = JsonFileTaskRepository::default_path();
    assert_eq!(repo.file_path(), "tasks.json");
    assert!(repo.tasks().is_empty());
    assert!(!repo.pending_write());
    let repo = JsonFileTaskRepository::new("data/x.json");
    assert_eq!(repo.file_path(), "data/x.json");
}

#[test]
fn save_replaces_first_with_same_id_and_keeps_order() {
    let mut repo =
        JsonFileTaskRepository::with_tasks("t.json", vec![task(4, "a"), task(9, "b"), task(2, "c")]);
    assert!(!repo.pending_write());
    repo.save(task(9, "B")).unwrap();
    assert!(repo.pending_write());
    let all = repo.find_all().unwrap();
    let ids: Vec<u64> = all.iter().map(|t| t.id).collect();
    assert_eq!(ids, vec![4, 9, 2]);
    assert_eq!(all[1].description, "B");
    repo.save(task(5, "d")).unwrap();
    let ids: Vec<u64> = repo.tasks().iter().map(|t| t.id).collect();
    assert_eq!(ids, vec![4, 9, 2, 5]);
}

#[test]
fn lookup_finds_first_of_duplicate_ids() {
    let repo = JsonFileTaskRepository::with_tasks("t.json", vec![task(3, "first"), task(3, "second")]);
    assert_eq!(repo.find_by_id(3).unwrap().unwrap().description, "first");
    assert_eq!(repo.find_by_id(4).unwrap(), None);
}

#[test]
fn delete_removes_every_task_with_the_id() {
    let mut repo = JsonFileTaskRepository::with_tasks(
        "t.json",
        vec![task(3, "a"), task(1, "b"), task(3, "c")],
    );
    assert!(!repo.delete(7).unwrap());
    assert!(!repo.pending_write());
    assert!(repo.delete(3).unwrap());
    assert!(repo.pending_write());
    let ids: Vec<u64> = repo.tasks().iter().map(|t| t.id).collect();
    assert_eq!(ids, vec![1]);
}

#[test]
fn next_id_is_one_past_the_greatest() {
    let repo = JsonFileTaskRepository::with_tasks("t.json", vec![task(4, "a"), task(10, "b"), task(2, "c")]);
    assert_eq!(repo.next_id().unwrap(), 11);
    let empty = JsonFileTaskRepository::new("t.json");
    assert_eq!(empty.next_id().unwrap(), 1);
}

#[test]
fn blank_content_holds_no_task() {
    assert!(content_is_blank(""));
    assert!(content_is_blank(" \n\t "));
    assert!(!content_is_blank(" [] "));
}
