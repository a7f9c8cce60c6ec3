//! Request payloads of the HTTP API.
use crate::domain::status::{
    ascii_lowercase, is_ascii_text, lemma_name_parses_back, lemma_name_text_round_trip, lowercase,
    status_from_text, status_from_word, status_name, TaskStatus,
};
use crate::error::{result_view, TaskError, TaskErrorView};
use crate::text::{trim_str, trimmed};
use vstd::prelude::*;
use vstd::string::*;

verus! {

/// Request payload for creating a task.
#[derive(Debug, Clone)]
pub struct CreateTaskRequest {
    pub description: String,
}

/// Request payload for replacing a task's description.
#[derive(Debug, Clone)]
pub struct UpdateTaskRequest {
    pub description: String,
}

/// Query parameters for listing tasks.
#[derive(Debug, Clone)]
pub struct TaskFilterQuery {
    pub status: Option<String>,
}

impl Default for TaskFilterQuery {
    fn default() -> (r: Self)
        ensures
            r.status is None,
    {
        TaskFilterQuery { status: None }
    }
}

/// The status filter that a `status` query parameter asks for: none when
/// the parameter is absent or white space only, else the status it names.
pub open spec fn filter_from_query(status: Option<Seq<char>>) -> Result<
    Option<TaskStatus>,
    TaskErrorView,
> {
    match status {
        Some(s) => if trimmed(s).len() > 0 {
            match status_from_text(s) {
                Ok(st) => Ok(Some(st)),
                Err(e) => Err(e),
            }
        } else {
            Ok(None)
        },
        None => Ok(None),
    }
}

impl TaskFilterQuery {
    /// The status parameter, taken as a character sequence.
    pub open spec fn status_view(&self) -> Option<Seq<char>> {
        match self.status {
            Some(s) => Some(s@),
            None => None,
        }
    }

    /// The status filter that the query asks for.
    pub fn status_filter(&self) -> (r: Result<Option<TaskStatus>, TaskError>)
        ensures
            result_view(r) == filter_from_query(self.status_view()),
    {
        match &self.status {
            Some(s) => {
                if trim_str(s.as_str()).unicode_len() > 0 {
                    match TaskStatus::parse(s.as_str()) {
                        Ok(st) => Ok(Some(st)),
                        Err(e) => Err(e),
                    }
                } else {
                    Ok(None)
                }
            },
            None => Ok(None),
        }
    }
}

/// Law: a query whose status parameter is a status's name (with any white
/// space around it) asks for exactly that status.
pub proof fn lemma_query_names_its_status(s: TaskStatus)
    ensures
        filter_from_query(Some(status_name(s))) == Ok::<Option<TaskStatus>, TaskErrorView>(
            Some(s),
        ),
{
    lemma_name_text_round_trip(s);
    lemma_name_parses_back(s);
    reveal_strlit("todo");
    reveal_strlit("in-progress");
    reveal_strlit("done");
    assert(trimmed(status_name(s)).len() > 0);
}

/// Law: the list is left unfiltered only when the status parameter is
/// absent or blank; any other parameter either names a status, which is
/// then the filter, or is refused with `InvalidStatus`.
pub proof fn lemma_unfiltered_only_without_status(status: Option<Seq<char>>)
    ensures
        filter_from_query(status) == Ok::<Option<TaskStatus>, TaskErrorView>(None) <==> (
        status is None || trimmed(status->0).len() == 0),
        filter_from_query(status) matches Ok(Some(st)) ==> status is Some && status_from_text(
            status->0,
        ) == Ok::<TaskStatus, TaskErrorView>(st),
        filter_from_query(status) matches Err(e) ==> e is InvalidStatus,
{
    if let Some(p) = status {
        if trimmed(p).len() > 0 {
            let t = trimmed(p);
            if is_ascii_text(t) {
                assert(status_from_word(ascii_lowercase(t)) is Err ==> status_from_word(
                    ascii_lowercase(t),
                )->Err_0 is InvalidStatus);
            } else {
                assert(status_from_word(lowercase(t)) is Err ==> status_from_word(
                    lowercase(t),
                )->Err_0 is InvalidStatus);
            }
        }
    }
}

} // verus!
