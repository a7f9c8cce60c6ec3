//! The lifecycle status of a task.
use crate::error::{TaskError, TaskErrorView};
use crate::text::{is_white_space, str_eq, trim_str, trimmed, trimmed_end, trimmed_start};
use vstd::prelude::*;
use vstd::string::*;

verus! {

/// The lifecycle status of a task.
#[derive(Debug, Clone, Copy, PartialEq, Eq, Hash, Structural)]
pub enum TaskStatus {
    /// The task is pending and has not been started.
    Todo,
    /// The task is being worked on.
    InProgress,
    /// The task has been completed.
    Done,
}

/// The canonical name of a status.
pub open spec fn status_name(s: TaskStatus) -> Seq<char> {
    match s {
        TaskStatus::Todo => "todo"@,
        TaskStatus::InProgress => "in-progress"@,
        TaskStatus::Done => "done"@,
    }
}

/// The status that a lower-cased, trimmed word names, or the error for a
/// word that names none.
pub open spec fn status_from_word(w: Seq<char>) -> Result<TaskStatus, TaskErrorView> {
    if w == "todo"@ {
        Ok(TaskStatus::Todo)
    } else if w == "in-progress"@ || w == "inprogress"@ || w == "in_progress"@ {
        Ok(TaskStatus::InProgress)
    } else if w == "done"@ {
        Ok(TaskStatus::Done)
    } else {
        Err(TaskErrorView::InvalidStatus(w))
    }
}

/// What `str::to_lowercase` returns for a string: its lowercase equivalent
/// under Unicode's case mapping.
pub uninterp spec fn lowercase(s: Seq<char>) -> Seq<char>;

/// Whether every character of `s` is ASCII.
pub open spec fn is_ascii_text(s: Seq<char>) -> bool {
    forall|i: int| 0 <= i < s.len() ==> (#[trigger] s[i] as u32) < 128
}

/// The ASCII lowercase of a character: `A` to `Z` become `a` to `z`, every
/// other character stays.
pub open spec fn ascii_lower_char(c: char) -> char {
    if 'A' <= c <= 'Z' {
        ((c as u32) + 32) as char
    } else {
        c
    }
}

/// `s` with `A` to `Z` made `a` to `z`.
pub open spec fn ascii_lowercase(s: Seq<char>) -> Seq<char> {
    s.map_values(|c: char| ascii_lower_char(c))
}

/// Calls `str::to_lowercase`. The full mapping is Unicode's and takes pages
/// to state, so the contract names the result. It also states what Unicode's
/// lowercase mapping does on ASCII text: `A` to `Z` become `a` to `z`, every
/// other ASCII character stays.
#[verifier::external_body]
fn to_lowercase(s: &str) -> (r: String)
    ensures
        r@ == lowercase(s@),
        is_ascii_text(s@) ==> r@ == ascii_lowercase(s@),
{
    s.to_lowercase()
}

/// The status that text names: white space around it is ignored and the
/// rest is lower-cased before it is looked up. ASCII text is lower-cased by
/// turning `A` to `Z` into `a` to `z`; other text by Unicode's mapping.
pub open spec fn status_from_text(s: Seq<char>) -> Result<TaskStatus, TaskErrorView> {
    let t = trimmed(s);
    if is_ascii_text(t) {
        status_from_word(ascii_lowercase(t))
    } else {
        status_from_word(lowercase(t))
    }
}

impl TaskStatus {
    /// The canonical string form of the status.
    pub fn as_str(&self) -> (r: &'static str)
        ensures
            r@ == status_name(*self),
    {
        match self {
            TaskStatus::Todo => "todo",
            TaskStatus::InProgress => "in-progress",
            TaskStatus::Done => "done",
        }
    }

    /// The canonical string form of the status, as an owned `String`.
    pub fn to_string(&self) -> (r: String)
        ensures
            r@ == status_name(*self),
    {
        self.as_str().to_owned()
    }

    /// The status that a word already trimmed and lower-cased names.
    pub fn from_word(word: &str) -> (r: Result<TaskStatus, TaskError>)
        ensures
            crate::error::result_view(r) == status_from_word(word@),
    {
        if str_eq(word, "todo") {
            Ok(TaskStatus::Todo)
        } else if str_eq(word, "in-progress") || str_eq(word, "inprogress") || str_eq(
            word,
            "in_progress",
        ) {
            Ok(TaskStatus::InProgress)
        } else if str_eq(word, "done") {
            Ok(TaskStatus::Done)
        } else {
            Err(TaskError::InvalidStatus(word.to_owned()))
        }
    }

    /// The status that `s` names, ignoring surrounding white space and case.
    pub fn parse(s: &str) -> (r: Result<TaskStatus, TaskError>)
        ensures
            crate::error::result_view(r) == status_from_text(s@),
            is_ascii_text(trimmed(s@)) ==> crate::error::result_view(r) == status_from_word(
                ascii_lowercase(trimmed(s@)),
            ),
    {
        let lowered = to_lowercase(trim_str(s));
        TaskStatus::from_word(lowered.as_str())
    }
}

impl std::str::FromStr for TaskStatus {
    type Err = TaskError;

    fn from_str(s: &str) -> (r: Result<TaskStatus, TaskError>)
        ensures
            crate::error::result_view(r) == status_from_text(s@),
            is_ascii_text(trimmed(s@)) ==> crate::error::result_view(r) == status_from_word(
                ascii_lowercase(trimmed(s@)),
            ),
    {
        TaskStatus::parse(s)
    }
}

/// Every status's canonical name is read back as that status.
pub proof fn lemma_name_round_trip(s: TaskStatus)
    ensures
        status_from_word(status_name(s)) == Ok::<TaskStatus, TaskErrorView>(s),
{
    reveal_strlit("todo");
    reveal_strlit("in-progress");
    reveal_strlit("inprogress");
    reveal_strlit("in_progress");
    reveal_strlit("done");
    match s {
        TaskStatus::Todo => {},
        TaskStatus::InProgress => {
            assert("in-progress"@.len() != "todo"@.len());
        },
        TaskStatus::Done => {
            assert("done"@[0] != "todo"@[0]);
            assert("done"@.len() != "in-progress"@.len());
            assert("done"@.len() != "inprogress"@.len());
            assert("done"@.len() != "in_progress"@.len());
        },
    }
}

/// Law: every status's canonical name is ASCII, has no white space around
/// it and is already lower case, so reading it back as text (as `parse` and
/// `from_str` do) gives that status.
pub proof fn lemma_name_parses_back(s: TaskStatus)
    ensures
        is_ascii_text(trimmed(status_name(s))),
        trimmed(status_name(s)) == status_name(s),
        ascii_lowercase(status_name(s)) == status_name(s),
        status_from_word(ascii_lowercase(trimmed(status_name(s)))) == Ok::<
            TaskStatus,
            TaskErrorView,
        >(s),
{
    reveal_strlit("todo");
    reveal_strlit("in-progress");
    reveal_strlit("done");
    let n = status_name(s);
    assert(n.len() > 0);
    assert(!is_white_space(n[0]));
    assert(!is_white_space(n.last()));
    assert(trimmed_start(n) == n);
    assert(trimmed_end(n) == n);
    assert(ascii_lowercase(n) =~= n) by {
        assert forall|i: int| 0 <= i < n.len() implies ascii_lower_char(n[i]) == n[i] by {
            assert(n[i] == 'd' || n[i] == 'o' || n[i] == 'n' || n[i] == 'e' || n[i] == 't'
                || n[i] == 'i' || n[i] == '-' || n[i] == 'p' || n[i] == 'r' || n[i] == 'g' || n[i]
                == 's');
        }
    }
    assert forall|i: int| 0 <= i < n.len() implies (#[trigger] n[i] as u32) < 128 by {
        assert(n[i] == 'd' || n[i] == 'o' || n[i] == 'n' || n[i] == 'e' || n[i] == 't' || n[i]
            == 'i' || n[i] == '-' || n[i] == 'p' || n[i] == 'r' || n[i] == 'g' || n[i] == 's');
    }
    lemma_name_round_trip(s);
}

/// Law: the text of each status's name, read as a status (as `parse`,
/// `from_str`, `task-cli list <status>` and `?status=` read it), gives that
/// status.
pub proof fn lemma_name_text_round_trip(s: TaskStatus)
    ensures
        status_from_text(status_name(s)) == Ok::<TaskStatus, TaskErrorView>(s),
{
    lemma_name_parses_back(s);
}

} // verus!
