use task_tracker::cli::{
    answer_after_failed_read, file_actions, is_argument_error, handle_add, handle_delete, handle_list, handle_mark_done, handle_mark_in_progress,
    handle_update, list_description, pad_right, parse_id, select_command, serve_port, task_table,
    CliCommand,
};
use task_tracker::domain::{Task, TaskStatus};
use task_tracker::error::TaskError;
use task_tracker::repository::JsonFileTaskRepository;
use task_tracker::service::TaskManager;

fn args(list: &[&str]) -> Vec<String> {
    let mut v = vec!["task-cli".to_string()];
    v.extend(list.iter().map(|s| s.to_string()));
    v
}

fn manager() -> TaskManager<JsonFileTaskRepository> {
    TaskManager::new(JsonFileTaskRepository::new("tasks.json"))
}

fn invalid_argument(r: Result<String, TaskError>) -> String {
    match r {
        Err(TaskError::InvalidArgument(m)) => m,
        other => panic!("unexpected {:?}", other),
    }
}

#[test]
fn commands_are_selected_by_name() {
    assert_eq!(select_command(&args(&[])).unwrap(), CliCommand::Usage);
    assert_eq!(select_command(&args(&["add"])).unwrap(), CliCommand::Add);
    assert_eq!(select_command(&args(&["update"])).unwrap(), CliCommand::Update);
    assert_eq!(select_command(&args(&["delete"])).unwrap(), CliCommand::Delete);
    assert_eq!(select_command(&args(&["mark-in-progress"])).unwrap(), CliCommand::MarkInProgress);
    assert_eq!(select_command(&args(&["mark_in_progress"])).unwrap(), CliCommand::MarkInProgress);
    assert_eq!(select_command(&args(&["mark-done"])).unwrap(), CliCommand::MarkDone);
    assert_eq!(select_command(&args(&["mark_done"])).unwrap(), CliCommand::MarkDone);
    assert_eq!(select_command(&args(&["list"])).unwrap(), CliCommand::List);
    assert_eq!(select_command(&args(&["serve"])).unwrap(), CliCommand::Serve);
    assert_eq!(select_command(&args(&["help"])).unwrap(), CliCommand::Usage);
    assert_eq!(select_command(&args(&["--help"])).unwrap(), CliCommand::Usage);
    assert_eq!(select_command(&args(&["-h"])).unwrap(), CliCommand::Usage);
}

#[test]
fn unknown_command_is_reported() {
    let err = select_command(&args(&["unknown-cmd"])).unwrap_err();
    assert_eq!(err.status_code(), 404);
    assert!(matches!(&err, TaskError::InvalidCommand(c) if c == "unknown-cmd"));
    assert!(err.message().contains("Unknown command"));
}

#[test]
fn ids_are_read_as_u64() {
    assert_eq!(parse_id("42").unwrap(), 42);
    assert_eq!(parse_id("+7").unwrap(), 7);
    assert_eq!(parse_id("18446744073709551615").unwrap(), u64::MAX);
    for bad in ["", "+", "-1", "not-a-number", " 1", "18446744073709551616", "1x"] {
        let err = parse_id(bad).unwrap_err();
        match err {
            TaskError::InvalidArgument(m) => {
                assert_eq!(m, format!("Invalid task ID '{bad}'. ID must be a positive integer."))
            }
            other => panic!("unexpected {:?}", other),
        }
    }
}

#[test]
fn add_confirms_with_the_new_id() {
    let mut m = manager();
    assert_eq!(
        handle_add(&args(&["add", "Buy groceries"]), &mut m).unwrap(),
        "Task added successfully (ID: 1)"
    );
    assert_eq!(m.get_task(1).unwrap().description, "Buy groceries");
    let msg = invalid_argument(handle_add(&args(&["add"]), &mut m));
    assert!(msg.contains("Missing task description"));
    assert!(matches!(
        handle_add(&args(&["add", "  "]), &mut m),
        Err(TaskError::EmptyDescription)
    ));
    assert_eq!(m.list_tasks(None).unwrap().len(), 1);
}

#[test]
fn update_with_blank_description_reports_it() {
    let mut m = manager();
    handle_add(&args(&["add", "Buy groceries"]), &mut m).unwrap();
    assert!(matches!(
        handle_update(&args(&["update", "1", " \t "]), &mut m),
        Err(TaskError::EmptyDescription)
    ));
    assert_eq!(m.get_task(1).unwrap().description, "Buy groceries");
}

#[test]
fn update_checks_its_arguments() {
    let mut m = manager();
    handle_add(&args(&["add", "Buy groceries"]), &mut m).unwrap();
    assert_eq!(
        invalid_argument(handle_update(&args(&["update"]), &mut m)),
        "Missing task ID. Usage: task-cli update <id> \"<description>\""
    );
    assert_eq!(
        invalid_argument(handle_update(&args(&["update", "1"]), &mut m)),
        "Missing task description. Usage: task-cli update <id> \"<description>\""
    );
    assert!(invalid_argument(handle_update(&args(&["update", "x", "y"]), &mut m))
        .starts_with("Invalid task ID 'x'"));
    let err = handle_update(&args(&["update", "999", "New title"]), &mut m).unwrap_err();
    assert_eq!(err.message(), "Task not found with ID: 999");
    assert_eq!(
        handle_update(&args(&["update", "1", "Buy groceries and cook dinner"]), &mut m).unwrap(),
        "Task updated successfully (ID: 1)"
    );
    assert_eq!(m.get_task(1).unwrap().description, "Buy groceries and cook dinner");
}

#[test]
fn status_commands_and_delete_confirm() {
    let mut m = manager();
    handle_add(&args(&["add", "Learn Rust"]), &mut m).unwrap();
    assert_eq!(
        handle_mark_in_progress(&args(&["mark-in-progress", "1"]), &mut m).unwrap(),
        "Task marked as in progress (ID: 1)"
    );
    assert_eq!(m.get_task(1).unwrap().status, TaskStatus::InProgress);
    assert_eq!(
        handle_mark_done(&args(&["mark-done", "1"]), &mut m).unwrap(),
        "Task marked as done (ID: 1)"
    );
    assert_eq!(m.get_task(1).unwrap().status, TaskStatus::Done);
    assert_eq!(
        invalid_argument(handle_mark_done(&args(&["mark-done"]), &mut m)),
        "Missing task ID. Usage: task-cli mark-done <id>"
    );
    assert_eq!(
        invalid_argument(handle_mark_in_progress(&args(&["mark-in-progress"]), &mut m)),
        "Missing task ID. Usage: task-cli mark-in-progress <id>"
    );
    assert!(invalid_argument(handle_delete(&args(&["delete", "not-a-number"]), &mut m))
        .contains("Invalid task ID"));
    assert_eq!(
        invalid_argument(handle_delete(&args(&["delete"]), &mut m)),
        "Missing task ID. Usage: task-cli delete <id>"
    );
    assert_eq!(
        handle_delete(&args(&["delete", "1"]), &mut m).unwrap(),
        "Task deleted successfully (ID: 1)"
    );
    assert!(matches!(
        handle_delete(&args(&["delete", "1"]), &mut m),
        Err(TaskError::TaskNotFound(1))
    ));
    let lines = task_table(&handle_list(&args(&["list"]), &m).unwrap());
    assert_eq!(lines, vec!["No tasks found.".to_string()]);
}

#[test]
fn list_filters_by_named_status() {
    let mut m = manager();
    for d in ["Task 1 Todo", "Task 2 InProg", "Task 3 Done"] {
        handle_add(&args(&["add", d]), &mut m).unwrap();
    }
    handle_mark_in_progress(&args(&["mark-in-progress", "2"]), &mut m).unwrap();
    handle_mark_done(&args(&["mark-done", "3"]), &mut m).unwrap();
    let ids = |a: &[&str]| -> Vec<u64> {
        handle_list(&args(a), &m).unwrap().iter().map(|t| t.id).collect()
    };
    assert_eq!(ids(&["list"]), vec![1, 2, 3]);
    assert_eq!(ids(&["list", "todo"]), vec![1]);
    assert_eq!(ids(&["list", "in-progress"]), vec![2]);
    assert_eq!(ids(&["list", "DONE"]), vec![3]);
    let err = handle_list(&args(&["list", "later"]), &m).unwrap_err();
    assert!(matches!(err, TaskError::InvalidStatus(ref s) if s == "later"));
}

#[test]
fn serve_port_defaults_and_checks() {
    assert_eq!(serve_port(&args(&["serve"])).unwrap(), 3000);
    assert_eq!(serve_port(&args(&["serve", "8080"])).unwrap(), 8080);
    assert_eq!(serve_port(&args(&["serve", "65535"])).unwrap(), 65535);
    match serve_port(&args(&["serve", "65536"])) {
        Err(TaskError::InvalidArgument(m)) => assert_eq!(m, "Invalid port number '65536'"),
        other => panic!("unexpected {:?}", other),
    }
}

#[test]
fn padding_counts_characters() {
    assert_eq!(pad_right("ab", 5), "ab   ");
    assert_eq!(pad_right("abcdef", 3), "abcdef");
    assert_eq!(pad_right("é", 3), "é  ");
    assert_eq!(pad_right("", 0), "");
}

#[test]
fn long_descriptions_are_cut() {
    let exact = "a".repeat(37);
    assert_eq!(list_description(&exact), exact);
    let long = "b".repeat(38);
    assert_eq!(list_description(&long), format!("{}...", "b".repeat(34)));
    let accented = format!("{}é{}", "c".repeat(32), "d".repeat(10));
    assert_eq!(list_description(&accented), format!("{}é...", "c".repeat(32)));
    let split = format!("a{}", "é".repeat(20));
    assert_eq!(list_description(&split), format!("a{}...", "é".repeat(16)));
    let wide = format!("{}{}", "x".repeat(33), "€".repeat(3));
    assert_eq!(list_description(&wide), format!("{}...", "x".repeat(33)));
}

#[test]
fn table_lists_a_description_cut_inside_a_character() {
    let t = Task::with_timestamps(
        1,
        &format!("a{}", "é".repeat(20)),
        TaskStatus::Todo,
        "c".to_string(),
        "u".to_string(),
    )
    .unwrap();
    let lines = task_table(&vec![t]);
    assert_eq!(
        lines[2],
        format!(
            "{:<6} {:<14} {:<40} {:<22} {:<22}",
            1,
            "[TODO]",
            format!("a{}...", "é".repeat(16)),
            "c",
            "u"
        )
    );
}

#[test]
fn table_matches_the_printed_layout() {
    let t = Task::with_timestamps(
        12,
        "Buy groceries",
        TaskStatus::InProgress,
        "2026-08-17T00:00:00Z".to_string(),
        "2026-08-17T00:10:00Z".to_string(),
    )
    .unwrap();
    let lines = task_table(&vec![t]);
    assert_eq!(lines.len(), 3);
    assert_eq!(
        lines[0],
        format!(
            "{:<6} {:<14} {:<40} {:<22} {:<22}",
            "ID", "STATUS", "DESCRIPTION", "CREATED AT", "UPDATED AT"
        )
    );
    assert_eq!(lines[1], "-".repeat(110));
    assert_eq!(
        lines[2],
        format!(
            "{:<6} {:<14} {:<40} {:<22} {:<22}",
            12, "[IN PROGRESS]", "Buy groceries", "2026-08-17T00:00:00Z", "2026-08-17T00:10:00Z"
        )
    );
}

#[test]
fn argument_errors_win_over_an_unreadable_file() {
    assert!(is_argument_error(&TaskError::InvalidArgument("m".into())));
    assert!(is_argument_error(&TaskError::InvalidStatus("s".into())));
    assert!(!is_argument_error(&TaskError::TaskNotFound(1)));
    assert!(!is_argument_error(&TaskError::EmptyDescription));
    let read = || TaskError::Serialization("bad json".into());
    let mut m = manager();
    let e = answer_after_failed_read(read(), handle_add(&args(&["add"]), &mut m));
    assert!(matches!(e, TaskError::InvalidArgument(ref s) if s.starts_with("Missing task description")));
    let e = answer_after_failed_read(read(), handle_add(&args(&["add", "x"]), &mut m));
    assert!(matches!(e, TaskError::Serialization(ref s) if s == "bad json"));
    let e = answer_after_failed_read(read(), handle_delete(&args(&["delete", "7"]), &mut m));
    assert!(matches!(e, TaskError::Serialization(_)));
}

#[test]
fn file_is_created_once_reached_and_written_when_changed() {
    let a = file_actions(false, false, true);
    assert!(a.create && a.write);
    let a = file_actions(false, true, false);
    assert!(!a.create && !a.write);
    let a = file_actions(true, false, false);
    assert!(!a.create && !a.write);
}
