use task_tracker::domain::{Task, TaskStatus};
use task_tracker::error::TaskError;

#[test]
fn test_status_to_string() {
    assert_eq!(TaskStatus::Todo.to_string(), "todo");
    assert_eq!(TaskStatus::InProgress.to_string(), "in-progress");
    assert_eq!(TaskStatus::Done.to_string(), "done");
}

#[test]
fn test_status_from_str() {
    assert_eq!("todo".parse::<TaskStatus>().unwrap(), TaskStatus::Todo);
    assert_eq!(
        "in-progress".parse::<TaskStatus>().unwrap(),
        TaskStatus::InProgress
    );
    assert_eq!("done".parse::<TaskStatus>().unwrap(), TaskStatus::Done);
    assert!("invalid".parse::<TaskStatus>().is_err());
}

#[test]
fn test_task_creation_valid() {
    let task = Task::new(1, "Buy groceries").unwrap();
    assert_eq!(task.id, 1);
    assert_eq!(task.description, "Buy groceries");
    assert_eq!(task.status, TaskStatus::Todo);
    assert_eq!(task.created_at, task.updated_at);
}

#[test]
fn test_task_creation_empty_description() {
    let err = Task::new(1, "   ").unwrap_err();
    assert!(matches!(err, TaskError::EmptyDescription));
}

#[test]
fn test_task_update_description() {
    let mut task = Task::new(1, "Old task").unwrap();
    task.update_description("New task").unwrap();
    assert_eq!(task.description, "New task");
}

#[test]
fn test_task_status_change() {
    let mut task = Task::new(1, "In progress task").unwrap();
    task.set_status(TaskStatus::InProgress);
    assert_eq!(task.status, TaskStatus::InProgress);
    task.set_status(TaskStatus::Done);
    assert_eq!(task.status, TaskStatus::Done);
}

#[test]
fn status_as_str_names() {
    assert_eq!(TaskStatus::Todo.as_str(), "todo");
    assert_eq!(TaskStatus::InProgress.as_str(), "in-progress");
    assert_eq!(TaskStatus::Done.as_str(), "done");
}

#[test]
fn status_parse_ignores_case_and_white_space() {
    assert_eq!(TaskStatus::parse("  TODO \n").unwrap(), TaskStatus::Todo);
    assert_eq!(TaskStatus::parse("In-Progress").unwrap(), TaskStatus::InProgress);
    assert_eq!(TaskStatus::parse("inprogress").unwrap(), TaskStatus::InProgress);
    assert_eq!(TaskStatus::parse("IN_PROGRESS").unwrap(), TaskStatus::InProgress);
    assert_eq!(TaskStatus::parse("\tDone").unwrap(), TaskStatus::Done);
}

#[test]
fn status_parse_error_carries_lowered_word() {
    match TaskStatus::parse("  Finished ") {
        Err(TaskError::InvalidStatus(s)) => assert_eq!(s, "finished"),
        other => panic!("unexpected {:?}", other),
    }
    match TaskStatus::parse("") {
        Err(TaskError::InvalidStatus(s)) => assert_eq!(s, ""),
        other => panic!("unexpected {:?}", other),
    }
}

#[test]
fn status_name_round_trip() {
    for s in [TaskStatus::Todo, TaskStatus::InProgress, TaskStatus::Done] {
        assert_eq!(TaskStatus::from_word(s.as_str()).unwrap(), s);
        assert_eq!(s.as_str().parse::<TaskStatus>().unwrap(), s);
    }
}

#[test]
fn status_from_word_is_exact() {
    assert!(TaskStatus::from_word("TODO").is_err());
    assert!(TaskStatus::from_word(" todo").is_err());
    assert_eq!(TaskStatus::from_word("in_progress").unwrap(), TaskStatus::InProgress);
}

#[test]
fn task_description_is_trimmed() {
    let task = Task::new(7, "  \t Write report \n").unwrap();
    assert_eq!(task.id, 7);
    assert_eq!(task.description, "Write report");
    assert!(!task.created_at.is_empty());
}

#[test]
fn task_with_timestamps_keeps_fields() {
    let task = Task::with_timestamps(
        3,
        " Buy groceries ",
        TaskStatus::Done,
        "2026-08-17T00:00:00Z".to_string(),
        "2026-08-18T00:00:00Z".to_string(),
    )
    .unwrap();
    assert_eq!(task.id, 3);
    assert_eq!(task.description, "Buy groceries");
    assert_eq!(task.status, TaskStatus::Done);
    assert_eq!(task.created_at, "2026-08-17T00:00:00Z");
    assert_eq!(task.updated_at, "2026-08-18T00:00:00Z");
    let err = Task::with_timestamps(
        3,
        "\n\t ",
        TaskStatus::Done,
        "a".to_string(),
        "b".to_string(),
    )
    .unwrap_err();
    assert!(matches!(err, TaskError::EmptyDescription));
}

#[test]
fn update_description_rejects_blank_and_keeps_task() {
    let mut task = Task::with_timestamps(
        1,
        "Old",
        TaskStatus::InProgress,
        "c".to_string(),
        "u".to_string(),
    )
    .unwrap();
    let before = task.clone();
    assert!(matches!(
        task.update_description("   "),
        Err(TaskError::EmptyDescription)
    ));
    assert_eq!(task, before);
    task.update_description(" New ").unwrap();
    assert_eq!(task.description, "New");
    assert_eq!(task.status, TaskStatus::InProgress);
    assert_eq!(task.created_at, "c");
    assert_eq!(task.id, 1);
}

#[test]
fn set_status_keeps_other_fields() {
    let mut task = Task::with_timestamps(
        2,
        "Keep me",
        TaskStatus::Todo,
        "c".to_string(),
        "u".to_string(),
    )
    .unwrap();
    task.set_status(TaskStatus::Done);
    assert_eq!(task.id, 2);
    assert_eq!(task.description, "Keep me");
    assert_eq!(task.created_at, "c");
    assert_eq!(task.status, TaskStatus::Done);
}

#[test]
fn task_clone_is_equal() {
    let task = Task::new(5, "Clone me").unwrap();
    assert_eq!(task.clone(), task);
}

#[test]
fn task_changes_stamp_the_given_time() {
    let mut task = Task::with_timestamps(
        4,
        "Old",
        TaskStatus::Todo,
        "c".to_string(),
        "u".to_string(),
    )
    .unwrap();
    task.update_description_at(" New ", "t1".to_string()).unwrap();
    assert_eq!(task.description, "New");
    assert_eq!(task.updated_at, "t1");
    assert_eq!(task.created_at, "c");
    assert!(task.update_description_at("", "t2".to_string()).is_err());
    assert_eq!(task.updated_at, "t1");
    task.set_status_at(TaskStatus::Done, "t3".to_string());
    assert_eq!(task.status, TaskStatus::Done);
    assert_eq!(task.updated_at, "t3");
    assert_eq!(task.description, "New");
}

#[test]
fn status_parse_upper_case_names() {
    assert_eq!("TODO".parse::<TaskStatus>().unwrap(), TaskStatus::Todo);
    assert_eq!("IN-PROGRESS".parse::<TaskStatus>().unwrap(), TaskStatus::InProgress);
    assert_eq!(" Done ".parse::<TaskStatus>().unwrap(), TaskStatus::Done);
}
