//! The decisions of the `task-cli` command line: which command the
//! arguments name, what each command checks of its arguments, what it asks
//! of the task manager, and the text it answers with.
use crate::domain::status::{status_from_text, status_name, TaskStatus};
use crate::domain::task::{valid_description, Task, TaskView};
use crate::error::{is_storage_error, result_view, TaskError, TaskErrorView};
use crate::repository::model::{lookup, max_id, task_views, with_status, has_id, without_id, lemma_lookup_after_save};
use crate::repository::traits::TaskRepository;
use crate::service::task_manager::{adds_task, changes_found_task, TaskManager};
use crate::text::{chars_of, decimal, join3, parse_u16, parse_u64, parsed_u16, parsed_u64, str_eq, trimmed, u64_to_decimal, push_str};
use vstd::prelude::*;
use vstd::string::*;
use vstd::utf8::{encode_scalar, encode_utf8};

verus! {

/// The arguments, each taken as a character sequence.
pub open spec fn arg_views(args: Seq<String>) -> Seq<Seq<char>> {
    args.map_values(|a: String| a@)
}

/// The commands of `task-cli`.
#[derive(Debug, Clone, Copy, PartialEq, Eq, Structural)]
pub enum CliCommand {
    Usage,
    Add,
    Update,
    Delete,
    MarkInProgress,
    MarkDone,
    List,
    Serve,
}

/// The command that the arguments name (the first argument is the
/// program's name): none names the usage text, and so do `help`, `--help`
/// and `-h`.
pub open spec fn command_named(args: Seq<Seq<char>>) -> Result<CliCommand, TaskErrorView> {
    if args.len() < 2 {
        Ok(CliCommand::Usage)
    } else {
        let w = args[1];
        if w == "add"@ {
            Ok(CliCommand::Add)
        } else if w == "update"@ {
            Ok(CliCommand::Update)
        } else if w == "delete"@ {
            Ok(CliCommand::Delete)
        } else if w == "mark-in-progress"@ || w == "mark_in_progress"@ {
            Ok(CliCommand::MarkInProgress)
        } else if w == "mark-done"@ || w == "mark_done"@ {
            Ok(CliCommand::MarkDone)
        } else if w == "list"@ {
            Ok(CliCommand::List)
        } else if w == "serve"@ {
            Ok(CliCommand::Serve)
        } else if w == "help"@ || w == "--help"@ || w == "-h"@ {
            Ok(CliCommand::Usage)
        } else {
            Err(TaskErrorView::InvalidCommand(w))
        }
    }
}

/// The command that the arguments name.
pub fn select_command(args: &Vec<String>) -> (r: Result<CliCommand, TaskError>)
    ensures
        result_view(r) == command_named(arg_views(args@)),
{
    if args.len() < 2 {
        return Ok(CliCommand::Usage);
    }
    let w = args[1].as_str();
    assert(w@ == arg_views(args@)[1]);
    if str_eq(w, "add") {
        Ok(CliCommand::Add)
    } else if str_eq(w, "update") {
        Ok(CliCommand::Update)
    } else if str_eq(w, "delete") {
        Ok(CliCommand::Delete)
    } else if str_eq(w, "mark-in-progress") || str_eq(w, "mark_in_progress") {
        Ok(CliCommand::MarkInProgress)
    } else if str_eq(w, "mark-done") || str_eq(w, "mark_done") {
        Ok(CliCommand::MarkDone)
    } else if str_eq(w, "list") {
        Ok(CliCommand::List)
    } else if str_eq(w, "serve") {
        Ok(CliCommand::Serve)
    } else if str_eq(w, "help") || str_eq(w, "--help") || str_eq(w, "-h") {
        Ok(CliCommand::Usage)
    } else {
        Err(TaskError::InvalidCommand(w.to_owned()))
    }
}

/// The error for text that is not a task id.
pub open spec fn invalid_id_error(s: Seq<char>) -> TaskErrorView {
    TaskErrorView::InvalidArgument(
        "Invalid task ID '"@ + s + "'. ID must be a positive integer."@,
    )
}

/// The task id that `s` denotes, or the error for text that denotes none.
pub open spec fn id_from_text(s: Seq<char>) -> Result<u64, TaskErrorView> {
    match parsed_u64(s) {
        Some(n) => Ok(n),
        None => Err(invalid_id_error(s)),
    }
}

/// Reads a task id.
pub fn parse_id(s: &str) -> (r: Result<u64, TaskError>)
    ensures
        result_view(r) == id_from_text(s@),
{
    match parse_u64(s) {
        Some(n) => Ok(n),
        None => Err(
            TaskError::InvalidArgument(
                join3("Invalid task ID '", s, "'. ID must be a positive integer."),
            ),
        ),
    }
}

/// The confirmation a command answers with: what was done and the task's id.
pub open spec fn confirmation(done: Seq<char>, id: u64) -> Seq<char> {
    done + " (ID: "@ + decimal(id as nat) + ")"@
}

fn confirm(done: &str, id: u64) -> (r: String)
    ensures
        r@ == confirmation(done@, id),
{
    let digits = u64_to_decimal(id);
    join3(done, " (ID: ", digits.as_str()).concat(")")
}

fn missing(text: &str) -> (r: TaskError)
    ensures
        r@ == TaskErrorView::InvalidArgument(text@),
{
    TaskError::InvalidArgument(text.to_owned())
}

/// The error of `add` without a description.
pub open spec fn add_missing_description() -> TaskErrorView {
    TaskErrorView::InvalidArgument(
        "Missing task description. Usage: task-cli add \"<description>\""@,
    )
}

/// The error of `update` without an id.
pub open spec fn update_missing_id() -> TaskErrorView {
    TaskErrorView::InvalidArgument(
        "Missing task ID. Usage: task-cli update <id> \"<description>\""@,
    )
}

/// The error of `update` without a description.
pub open spec fn update_missing_description() -> TaskErrorView {
    TaskErrorView::InvalidArgument(
        "Missing task description. Usage: task-cli update <id> \"<description>\""@,
    )
}

/// The error of `delete` without an id.
pub open spec fn delete_missing_id() -> TaskErrorView {
    TaskErrorView::InvalidArgument("Missing task ID. Usage: task-cli delete <id>"@)
}

/// The error of `mark-in-progress` without an id.
pub open spec fn mark_in_progress_missing_id() -> TaskErrorView {
    TaskErrorView::InvalidArgument("Missing task ID. Usage: task-cli mark-in-progress <id>"@)
}

/// The error of `mark-done` without an id.
pub open spec fn mark_done_missing_id() -> TaskErrorView {
    TaskErrorView::InvalidArgument("Missing task ID. Usage: task-cli mark-done <id>"@)
}

/// `task-cli add "<description>"`: adds a task and answers with its id.
pub fn handle_add<R: TaskRepository>(args: &Vec<String>, manager: &mut TaskManager<R>) -> (r:
    Result<String, TaskError>)
    requires
        args@.len() >= 3 ==> max_id(old(manager).stored()) < u64::MAX,
    ensures
        args@.len() < 3 ==> result_view(r) == Err::<String, TaskErrorView>(
            add_missing_description(),
        ),
        r is Err ==> final(manager).stored() == old(manager).stored(),
        r matches Ok(m) ==> args@.len() >= 3 && adds_task(
            old(manager).stored(),
            final(manager).stored(),
            args@[2]@,
            final(manager).stored().last(),
        ) && m@ == confirmation("Task added successfully"@, final(manager).stored().last().id),
        args@.len() >= 3 ==> (r matches Err(e) ==> e@ == TaskErrorView::EmptyDescription
            || is_storage_error(e@)),
        args@.len() >= 3 && !valid_description(args@[2]@) ==> r is Err,
        args@.len() >= 3 && old(manager).reliable() ==> (r is Ok <==> valid_description(
            args@[2]@,
        )),
        args@.len() >= 3 && old(manager).reliable() ==> (r matches Err(e) ==> e@
            == TaskErrorView::EmptyDescription),
        final(manager).reliable() == old(manager).reliable(),
{
    if args.len() < 3 {
        return Err(missing("Missing task description. Usage: task-cli add \"<description>\""));
    }
    let task = match manager.add_task(args[2].as_str()) {
        Ok(t) => t,
        Err(e) => return Err(e),
    };
    Ok(confirm("Task added successfully", task.id))
}

/// `task-cli update <id> "<description>"`: replaces a task's description
/// and answers with its id.
pub fn handle_update<R: TaskRepository>(args: &Vec<String>, manager: &mut TaskManager<R>) -> (r:
    Result<String, TaskError>)
    ensures
        r is Err ==> final(manager).stored() == old(manager).stored(),
        args@.len() < 3 ==> result_view(r) == Err::<String, TaskErrorView>(update_missing_id()),
        args@.len() == 3 ==> result_view(r) == Err::<String, TaskErrorView>(
            update_missing_description(),
        ),
        args@.len() >= 4 && parsed_u64(args@[2]@) is None ==> result_view(r) == Err::<
            String,
            TaskErrorView,
        >(invalid_id_error(args@[2]@)),
        args@.len() >= 4 && parsed_u64(args@[2]@) is Some ==> {
            let id = parsed_u64(args@[2]@)->0;
            &&& r matches Ok(m) ==> {
                &&& changes_found_task(
                    old(manager).stored(),
                    final(manager).stored(),
                    id,
                    Ok(lookup(final(manager).stored(), id)->0),
                )
                &&& lookup(final(manager).stored(), id)->0.description == trimmed(args@[3]@)
                &&& lookup(final(manager).stored(), id)->0.status == lookup(
                    old(manager).stored(),
                    id,
                )->0.status
                &&& m@ == confirmation("Task updated successfully"@, id)
            }
            &&& r matches Err(e) ==> is_storage_error(e@) || e@ == TaskErrorView::TaskNotFound(
                id,
            ) || e@ == TaskErrorView::EmptyDescription
            &&& old(manager).reliable() ==> (r is Ok <==> lookup(old(manager).stored(), id) is Some
                && valid_description(args@[3]@))
            &&& old(manager).reliable() && lookup(old(manager).stored(), id) is None ==> result_view(
                r,
            ) == Err::<String, TaskErrorView>(TaskErrorView::TaskNotFound(id))
            &&& old(manager).reliable() && lookup(old(manager).stored(), id) is Some
                && !valid_description(args@[3]@) ==> result_view(r) == Err::<
                String,
                TaskErrorView,
            >(TaskErrorView::EmptyDescription)
        },
        final(manager).reliable() == old(manager).reliable(),
{
    if args.len() < 3 {
        return Err(missing("Missing task ID. Usage: task-cli update <id> \"<description>\""));
    }
    if args.len() < 4 {
        return Err(
            missing("Missing task description. Usage: task-cli update <id> \"<description>\""),
        );
    }
    let id = match parse_id(args[2].as_str()) {
        Ok(n) => n,
        Err(e) => return Err(e),
    };
    let task = match manager.update_task(id, args[3].as_str()) {
        Ok(t) => t,
        Err(e) => return Err(e),
    };
    proof {
        lemma_lookup_after_save(old(manager).stored(), task@);
    }
    Ok(confirm("Task updated successfully", task.id))
}

/// `task-cli delete <id>`: deletes a task and answers with its id.
pub fn handle_delete<R: TaskRepository>(args: &Vec<String>, manager: &mut TaskManager<R>) -> (r:
    Result<String, TaskError>)
    ensures
        r is Err ==> final(manager).stored() == old(manager).stored(),
        args@.len() < 3 ==> result_view(r) == Err::<String, TaskErrorView>(delete_missing_id()),
        args@.len() >= 3 && parsed_u64(args@[2]@) is None ==> result_view(r) == Err::<
            String,
            TaskErrorView,
        >(invalid_id_error(args@[2]@)),
        args@.len() >= 3 && parsed_u64(args@[2]@) is Some ==> {
            let id = parsed_u64(args@[2]@)->0;
            &&& r matches Ok(m) ==> {
                &&& has_id(old(manager).stored(), id)
                &&& final(manager).stored() == without_id(old(manager).stored(), id)
                &&& m@ == confirmation("Task deleted successfully"@, id)
            }
            &&& r matches Err(e) ==> is_storage_error(e@) || e@ == TaskErrorView::TaskNotFound(
                id,
            )
            &&& old(manager).reliable() ==> (r is Ok <==> has_id(old(manager).stored(), id))
            &&& old(manager).reliable() && !has_id(old(manager).stored(), id) ==> result_view(r)
                == Err::<String, TaskErrorView>(TaskErrorView::TaskNotFound(id))
        },
        final(manager).reliable() == old(manager).reliable(),
{
    if args.len() < 3 {
        return Err(missing("Missing task ID. Usage: task-cli delete <id>"));
    }
    let id = match parse_id(args[2].as_str()) {
        Ok(n) => n,
        Err(e) => return Err(e),
    };
    match manager.delete_task(id) {
        Ok(()) => {},
        Err(e) => return Err(e),
    }
    Ok(confirm("Task deleted successfully", id))
}

/// What a status command leaves and answers, once it has its id.
pub open spec fn status_command_result(
    before: Seq<TaskView>,
    after: Seq<TaskView>,
    reliable: bool,
    id: u64,
    status: TaskStatus,
    done: Seq<char>,
    r: Result<String, TaskError>,
) -> bool {
    &&& r matches Ok(m) ==> {
        &&& changes_found_task(before, after, id, Ok(lookup(after, id)->0))
        &&& lookup(after, id)->0.status == status
        &&& lookup(after, id)->0.description == lookup(before, id)->0.description
        &&& m@ == confirmation(done, id)
    }
    &&& r matches Err(e) ==> is_storage_error(e@) || e@ == TaskErrorView::TaskNotFound(id)
    &&& reliable ==> (r is Ok <==> lookup(before, id) is Some)
    &&& reliable && lookup(before, id) is None ==> result_view(r) == Err::<String, TaskErrorView>(
        TaskErrorView::TaskNotFound(id),
    )
}

/// `task-cli mark-in-progress <id>`: marks a task as in progress and
/// answers with its id.
pub fn handle_mark_in_progress<R: TaskRepository>(
    args: &Vec<String>,
    manager: &mut TaskManager<R>,
) -> (r: Result<String, TaskError>)
    ensures
        r is Err ==> final(manager).stored() == old(manager).stored(),
        args@.len() < 3 ==> result_view(r) == Err::<String, TaskErrorView>(
            mark_in_progress_missing_id(),
        ),
        args@.len() >= 3 && parsed_u64(args@[2]@) is None ==> result_view(r) == Err::<
            String,
            TaskErrorView,
        >(invalid_id_error(args@[2]@)),
        args@.len() >= 3 && parsed_u64(args@[2]@) is Some ==> status_command_result(
            old(manager).stored(),
            final(manager).stored(),
            old(manager).reliable(),
            parsed_u64(args@[2]@)->0,
            TaskStatus::InProgress,
            "Task marked as in progress"@,
            r,
        ),
        final(manager).reliable() == old(manager).reliable(),
{
    if args.len() < 3 {
        return Err(missing("Missing task ID. Usage: task-cli mark-in-progress <id>"));
    }
    let id = match parse_id(args[2].as_str()) {
        Ok(n) => n,
        Err(e) => return Err(e),
    };
    let task = match manager.mark_in_progress(id) {
        Ok(t) => t,
        Err(e) => return Err(e),
    };
    proof {
        lemma_lookup_after_save(old(manager).stored(), task@);
    }
    Ok(confirm("Task marked as in progress", task.id))
}

/// `task-cli mark-done <id>`: marks a task as done and answers with its id.
pub fn handle_mark_done<R: TaskRepository>(args: &Vec<String>, manager: &mut TaskManager<R>) -> (r:
    Result<String, TaskError>)
    ensures
        r is Err ==> final(manager).stored() == old(manager).stored(),
        args@.len() < 3 ==> result_view(r) == Err::<String, TaskErrorView>(
            mark_done_missing_id(),
        ),
        args@.len() >= 3 && parsed_u64(args@[2]@) is None ==> result_view(r) == Err::<
            String,
            TaskErrorView,
        >(invalid_id_error(args@[2]@)),
        args@.len() >= 3 && parsed_u64(args@[2]@) is Some ==> status_command_result(
            old(manager).stored(),
            final(manager).stored(),
            old(manager).reliable(),
            parsed_u64(args@[2]@)->0,
            TaskStatus::Done,
            "Task marked as done"@,
            r,
        ),
        final(manager).reliable() == old(manager).reliable(),
{
    if args.len() < 3 {
        return Err(missing("Missing task ID. Usage: task-cli mark-done <id>"));
    }
    let id = match parse_id(args[2].as_str()) {
        Ok(n) => n,
        Err(e) => return Err(e),
    };
    let task = match manager.mark_done(id) {
        Ok(t) => t,
        Err(e) => return Err(e),
    };
    proof {
        lemma_lookup_after_save(old(manager).stored(), task@);
    }
    Ok(confirm("Task marked as done", task.id))
}

/// `task-cli list [status]`: the tasks, all of them or those with the
/// status that the optional argument names.
pub fn handle_list<R: TaskRepository>(args: &Vec<String>, manager: &TaskManager<R>) -> (r: Result<
    Vec<Task>,
    TaskError,
>)
    ensures
        args@.len() >= 3 && status_from_text(args@[2]@) is Err ==> result_view(r) == Err::<
            Vec<Task>,
            TaskErrorView,
        >(status_from_text(args@[2]@)->Err_0),
        args@.len() >= 3 && status_from_text(args@[2]@) is Ok ==> (r matches Ok(v) ==> task_views(
            v@,
        ) == with_status(manager.stored(), status_from_text(args@[2]@)->Ok_0)),
        args@.len() < 3 ==> (r matches Ok(v) ==> task_views(v@) == manager.stored()),
        args@.len() >= 3 && status_from_text(args@[2]@) is Ok ==> (r matches Err(e)
            ==> is_storage_error(e@)),
        args@.len() < 3 ==> (r matches Err(e) ==> is_storage_error(e@)),
        manager.reliable() ==> (r is Ok <==> (args@.len() < 3 || status_from_text(args@[2]@) is Ok)),
{
    let filter = if args.len() >= 3 {
        match TaskStatus::parse(args[2].as_str()) {
            Ok(s) => Some(s),
            Err(e) => return Err(e),
        }
    } else {
        None
    };
    manager.list_tasks(filter)
}

/// Whether an error is one that a command reports from its arguments
/// alone, before it reaches the task file.
pub open spec fn argument_error(e: TaskErrorView) -> bool {
    e is InvalidArgument || e is InvalidStatus
}

/// Whether an error is one that a command reports from its arguments alone.
pub fn is_argument_error(e: &TaskError) -> (r: bool)
    ensures
        r == argument_error(e@),
{
    match e {
        TaskError::InvalidArgument(_) | TaskError::InvalidStatus(_) => true,
        _ => false,
    }
}

/// The error that a command answers when the task file cannot be read: a
/// command checks its arguments first, so its argument error (as it gives
/// it on a store without tasks) wins; otherwise the read error.
pub fn answer_after_failed_read<T>(read_error: TaskError, on_empty_store: Result<T, TaskError>) -> (r:
    TaskError)
    ensures
        r@ == (if on_empty_store is Err && argument_error(on_empty_store->Err_0@) {
            on_empty_store->Err_0@
        } else {
            read_error@
        }),
{
    match on_empty_store {
        Err(e) => if is_argument_error(&e) {
            e
        } else {
            read_error
        },
        Ok(_) => read_error,
    }
}

/// What becomes of the task file after a command ran on the tasks it held.
pub struct FileActions {
    /// Create the file, holding no task, before anything else.
    pub create: bool,
    /// Write the tasks back.
    pub write: bool,
}

/// What becomes of the task file after a command: it is created when it
/// was absent and the command got past its argument checks (and so reached
/// the file), and written back when the command changed the tasks.
pub fn file_actions(existed: bool, stopped_at_arguments: bool, pending_write: bool) -> (r:
    FileActions)
    ensures
        r.create == (!existed && !stopped_at_arguments),
        r.write == pending_write,
{
    FileActions { create: !existed && !stopped_at_arguments, write: pending_write }
}

/// The port that `task-cli serve [port]` listens on: the argument, read as
/// a port number, or 3000 without one.
pub open spec fn port_from_args(args: Seq<Seq<char>>) -> Result<u16, TaskErrorView> {
    if args.len() >= 3 {
        match parsed_u16(args[2]) {
            Some(p) => Ok(p),
            None => Err(TaskErrorView::InvalidArgument("Invalid port number '"@ + args[2] + "'"@)),
        }
    } else {
        Ok(3000)
    }
}

/// The port that `task-cli serve [port]` listens on.
pub fn serve_port(args: &Vec<String>) -> (r: Result<u16, TaskError>)
    ensures
        result_view(r) == port_from_args(arg_views(args@)),
{
    if args.len() >= 3 {
        assert(args@[2]@ == arg_views(args@)[2]);
        match parse_u16(args[2].as_str()) {
            Some(p) => Ok(p),
            None => Err(
                TaskError::InvalidArgument(join3("Invalid port number '", args[2].as_str(), "'")),
            ),
        }
    } else {
        Ok(3000)
    }
}

/// `n` spaces.
pub open spec fn spaces(n: nat) -> Seq<char> {
    Seq::new(n, |i: int| ' ')
}

/// `s` padded with spaces on the right to at least `width` characters.
pub open spec fn padded(s: Seq<char>, width: nat) -> Seq<char> {
    if s.len() >= width {
        s
    } else {
        s + spaces((width - s.len()) as nat)
    }
}

/// `s` padded with spaces on the right to at least `width` characters.
pub fn pad_right(s: &str, width: usize) -> (r: String)
    ensures
        r@ == padded(s@, width as nat),
{
    let mut r = s.to_owned();
    let n = s.unicode_len();
    let mut k: usize = n;
    assert(s@ + spaces(0) =~= s@);
    while k < width
        invariant
            n == s@.len(),
            n <= k,
            k <= width || k == n,
            r@ == s@ + spaces((k - n) as nat),
        decreases width - k,
    {
        push_str(&mut r, " ");
        proof {
            reveal_strlit(" ");
            assert(s@ + spaces((k + 1 - n) as nat) =~= s@ + spaces((k - n) as nat) + " "@);
        }
        k = k + 1;
    }
    r
}

/// The label a status is listed with.
pub open spec fn status_label(s: TaskStatus) -> Seq<char> {
    match s {
        TaskStatus::Todo => "[TODO]"@,
        TaskStatus::InProgress => "[IN PROGRESS]"@,
        TaskStatus::Done => "[DONE]"@,
    }
}

/// The character a status name's character is shown as in its label:
/// letters upper-cased, `-` as a space.
pub open spec fn label_char(c: char) -> char {
    if c == '-' {
        ' '
    } else if 'a' <= c <= 'z' {
        ((c as u32) - 32) as char
    } else {
        c
    }
}

/// Law: a status is listed under its own name, upper-cased, with `-` shown
/// as a space, in square brackets; so no two statuses share a label.
pub proof fn lemma_status_label_names_status(s: TaskStatus, other: TaskStatus)
    ensures
        status_label(s) == seq!['['] + status_name(s).map_values(|c: char| label_char(c)) + seq![
            ']',
        ],
        status_label(s) == status_label(other) ==> s == other,
{
    reveal_strlit("todo");
    reveal_strlit("in-progress");
    reveal_strlit("done");
    reveal_strlit("[TODO]");
    reveal_strlit("[IN PROGRESS]");
    reveal_strlit("[DONE]");
    let n = status_name(s);
    let l = seq!['['] + n.map_values(|c: char| label_char(c)) + seq![']'];
    assert(l.len() == status_label(s).len());
    assert forall|i: int| 0 <= i < l.len() implies l[i] == status_label(s)[i] by {
        if 0 < i < l.len() - 1 {
            assert(l[i] == label_char(n[i - 1]));
        }
    }
    assert(l =~= status_label(s));
    if s != other {
        assert(status_label(s) != status_label(other)) by {
            if status_label(s).len() == status_label(other).len() {
                assert(status_label(s)[1] != status_label(other)[1]);
            }
        }
    }
}

/// The number of bytes that `c` takes in UTF-8.
pub open spec fn utf8_width(c: char) -> nat {
    encode_scalar(c as u32).len()
}

/// The longest prefix of `d` whose UTF-8 encoding fits in `budget` bytes.
pub open spec fn fitting_prefix(d: Seq<char>, budget: nat) -> Seq<char>
    decreases d.len(),
{
    if d.len() > 0 && utf8_width(d[0]) <= budget {
        seq![d[0]] + fitting_prefix(d.drop_first(), (budget - utf8_width(d[0])) as nat)
    } else {
        Seq::<char>::empty()
    }
}

/// A description as it is listed: one of more than 37 bytes in UTF-8 is cut
/// to the longest prefix that fits in 34 bytes (so the cut never falls
/// inside a character) and followed by `...`.
pub open spec fn listed_description(d: Seq<char>) -> Seq<char> {
    if encode_utf8(d).len() > 37 {
        fitting_prefix(d, 34) + "..."@
    } else {
        d
    }
}

/// The number of bytes that `c` takes in UTF-8.
fn char_width(c: char) -> (r: usize)
    ensures
        r == utf8_width(c),
        1 <= r <= 4,
{
    proof {
        vstd::utf8::char_is_scalar(c);
    }
    let u = c as u32;
    if u <= 0x7F {
        1
    } else if u <= 0x7FF {
        2
    } else if u <= 0xFFFF {
        3
    } else {
        4
    }
}

/// One line of the task table, from its five cells.
pub open spec fn table_line(
    id: Seq<char>,
    status: Seq<char>,
    description: Seq<char>,
    created_at: Seq<char>,
    updated_at: Seq<char>,
) -> Seq<char> {
    padded(id, 6) + " "@ + padded(status, 14) + " "@ + padded(description, 40) + " "@ + padded(
        created_at,
        22,
    ) + " "@ + padded(updated_at, 22)
}

/// The line of the task table that lists `t`.
pub open spec fn task_line(t: TaskView) -> Seq<char> {
    table_line(
        decimal(t.id as nat),
        status_label(t.status),
        listed_description(t.description),
        t.created_at,
        t.updated_at,
    )
}

/// The lines that list `tasks`: a header, a rule and one line per task, or
/// a single line saying that there is none.
pub open spec fn table_lines(tasks: Seq<TaskView>) -> Seq<Seq<char>> {
    if tasks.len() == 0 {
        seq!["No tasks found."@]
    } else {
        seq![
            table_line("ID"@, "STATUS"@, "DESCRIPTION"@, "CREATED AT"@, "UPDATED AT"@),
            Seq::new(110, |i: int| '-'),
        ] + tasks.map_values(|t: TaskView| task_line(t))
    }
}

fn line_of(id: &str, status: &str, description: &str, created_at: &str, updated_at: &str) -> (r:
    String)
    ensures
        r@ == table_line(id@, status@, description@, created_at@, updated_at@),
{
    let mut r = pad_right(id, 6);
    push_str(&mut r, " ");
    push_str(&mut r, pad_right(status, 14).as_str());
    push_str(&mut r, " ");
    push_str(&mut r, pad_right(description, 40).as_str());
    push_str(&mut r, " ");
    push_str(&mut r, pad_right(created_at, 22).as_str());
    push_str(&mut r, " ");
    push_str(&mut r, pad_right(updated_at, 22).as_str());
    r
}

fn label_of(s: TaskStatus) -> (r: &'static str)
    ensures
        r@ == status_label(s),
{
    match s {
        TaskStatus::Todo => "[TODO]",
        TaskStatus::InProgress => "[IN PROGRESS]",
        TaskStatus::Done => "[DONE]",
    }
}

/// A description as it is listed.
#[verifier::rlimit(30)]
pub fn list_description(d: &str) -> (r: String)
    ensures
        r@ == listed_description(d@),
{
    if d.as_bytes().len() > 37 {
        let chars = chars_of(d);
        let n = chars.len();
        let mut i: usize = 0;
        let mut used: usize = 0;
        assert(d@.subrange(0, 0) + d@.skip(0) =~= d@);
        assert(fitting_prefix(d@, 34) =~= d@.subrange(0, 0) + fitting_prefix(d@.skip(0), 34));
        while i < n && used + char_width(chars[i]) <= 34
            invariant
                chars@ == d@,
                n == d@.len(),
                i <= n,
                used <= 34,
                fitting_prefix(d@, 34) == d@.subrange(0, i as int) + fitting_prefix(
                    d@.skip(i as int),
                    (34 - used) as nat,
                ),
            decreases n - i,
        {
            let w = char_width(chars[i]);
            proof {
                let t = d@.skip(i as int);
                assert(t[0] == d@[i as int]);
                assert(t.drop_first() =~= d@.skip(i + 1));
                assert(d@.subrange(0, i as int) + (seq![d@[i as int]] + fitting_prefix(
                    d@.skip(i + 1),
                    (34 - used - w) as nat,
                )) =~= d@.subrange(0, i + 1) + fitting_prefix(
                    d@.skip(i + 1),
                    (34 - used - w) as nat,
                ));
            }
            used = used + w;
            i = i + 1;
        }
        proof {
            assert(fitting_prefix(d@.skip(i as int), (34 - used) as nat) =~= Seq::<char>::empty());
            assert(fitting_prefix(d@, 34) =~= d@.subrange(0, i as int));
        }
        d.substring_char(0, i).to_owned().concat("...")
    } else {
        d.to_owned()
    }
}

/// The line of the task table that lists `t`.
fn task_line_of(t: &Task) -> (r: String)
    ensures
        r@ == task_line(t@),
{
    let id = u64_to_decimal(t.id);
    let description = list_description(t.description.as_str());
    line_of(
        id.as_str(),
        label_of(t.status),
        description.as_str(),
        t.created_at.as_str(),
        t.updated_at.as_str(),
    )
}

/// The lines that list `tasks`, as `task-cli list` prints them.
pub fn task_table(tasks: &Vec<Task>) -> (r: Vec<String>)
    ensures
        arg_views(r@) == table_lines(task_views(tasks@)),
{
    let mut lines: Vec<String> = Vec::new();
    if tasks.len() == 0 {
        lines.push("No tasks found.".to_owned());
        assert(arg_views(lines@) =~= table_lines(task_views(tasks@)));
        return lines;
    }
    lines.push(line_of("ID", "STATUS", "DESCRIPTION", "CREATED AT", "UPDATED AT"));
    let mut rule = String::new();
    let mut k: usize = 0;
    while k < 110
        invariant
            k <= 110,
            rule@ == Seq::new(k as nat, |i: int| '-'),
        decreases 110 - k,
    {
        push_str(&mut rule, "-");
        proof {
            reveal_strlit("-");
            assert(Seq::new((k + 1) as nat, |i: int| '-') =~= Seq::new(k as nat, |i: int| '-')
                + "-"@);
        }
        k = k + 1;
    }
    lines.push(rule);
    let mut i: usize = 0;
    while i < tasks.len()
        invariant
            i <= tasks@.len(),
            lines@.len() == i + 2,
            arg_views(lines@) == table_lines(task_views(tasks@)).take(i + 2),
        decreases tasks@.len() - i,
    {
        let line = task_line_of(&tasks[i]);
        let ghost before = lines@;
        lines.push(line);
        assert(arg_views(lines@) =~= arg_views(before).push(line@));
        assert(table_lines(task_views(tasks@)).take(i + 3) =~= table_lines(
            task_views(tasks@),
        ).take(i + 2).push(task_line(tasks@[i as int]@)));
        i = i + 1;
    }
    assert(table_lines(task_views(tasks@)).take(tasks@.len() + 2int) =~= table_lines(
        task_views(tasks@),
    ));
    lines
}

} // verus!
