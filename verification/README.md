# task_tracker

A task tracker whose logic is verified with Verus: tasks with a lifecycle
status (`todo`, `in-progress`, `done`), a store of tasks keyed by id, the
service that runs the use cases (add, update, delete, mark in progress, mark
done, get, list with a status filter), and the decisions of the command line
and of the REST API.

Layout:

- `src/text.rs`: trimming, comparison, decimal rendering and parsing.
- `src/error.rs`: errors, their messages and HTTP status codes.
- `src/domain/`: `TaskStatus` and `Task`.
- `src/repository/`: the model of a stored task list with its laws
  (`model.rs`), the `TaskRepository` interface, and the repository of the
  JSON task file, which holds the tasks read from it.
- `src/service/`: `TaskManager`.
- `src/cli.rs`: command selection, argument checks, confirmations, the task
  table.
- `src/api/`: request payloads and the status filter of the list endpoint.
- `app/`: the `task-cli` program (also `task-server` when run under that
  name): argument handling, printing, reading and atomically writing the JSON
  file, and the Axum server.
