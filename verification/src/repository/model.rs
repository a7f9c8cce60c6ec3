//! The mathematical model of a stored list of tasks: lookup by id, insert or
//! replace, removal, the next free id and filtering by status, with the laws
//! that relate them.
use crate::domain::status::TaskStatus;
use crate::domain::task::{Task, TaskView};
use crate::text::{lemma_trimmed_is_trimmed, trimmed};
use vstd::prelude::*;

verus! {

/// The views of a sequence of tasks.
pub open spec fn task_views(v: Seq<Task>) -> Seq<TaskView> {
    v.map_values(|t: Task| t@)
}

/// The view of an optional task.
pub open spec fn option_view(o: Option<Task>) -> Option<TaskView> {
    match o {
        Some(t) => Some(t@),
        None => None,
    }
}

/// Whether some task in `s` has the id `id`.
pub open spec fn has_id(s: Seq<TaskView>, id: u64) -> bool {
    exists|i: int| 0 <= i < s.len() && #[trigger] s[i].id == id
}

/// The position of the first task in `s` with the id `id`, or the length of
/// `s` when there is none.
pub open spec fn index_of_id(s: Seq<TaskView>, id: u64) -> int
    decreases s.len(),
{
    if s.len() == 0 {
        0
    } else if s[0].id == id {
        0
    } else {
        1 + index_of_id(s.drop_first(), id)
    }
}

/// The first task in `s` with the id `id`, if any.
pub open spec fn lookup(s: Seq<TaskView>, id: u64) -> Option<TaskView> {
    let i = index_of_id(s, id);
    if i < s.len() {
        Some(s[i])
    } else {
        None
    }
}

/// `s` with `t` in place of the first task that has its id, or with `t`
/// appended when no task has its id.
pub open spec fn upsert(s: Seq<TaskView>, t: TaskView) -> Seq<TaskView> {
    let i = index_of_id(s, t.id);
    if i < s.len() {
        s.update(i, t)
    } else {
        s.push(t)
    }
}

/// `s` without the tasks that have the id `id`, in the order of `s`.
pub open spec fn without_id(s: Seq<TaskView>, id: u64) -> Seq<TaskView> {
    s.filter(|t: TaskView| t.id != id)
}

/// The tasks of `s` that have the status `status`, in the order of `s`.
pub open spec fn with_status(s: Seq<TaskView>, status: TaskStatus) -> Seq<TaskView> {
    s.filter(|t: TaskView| t.status == status)
}

/// The greatest id in `s`, or 0 when `s` is empty.
pub open spec fn max_id(s: Seq<TaskView>) -> u64
    decreases s.len(),
{
    if s.len() == 0 {
        0
    } else {
        let m = max_id(s.drop_last());
        if s.last().id > m {
            s.last().id
        } else {
            m
        }
    }
}

/// Whether no two tasks of `s` share an id.
pub open spec fn ids_unique(s: Seq<TaskView>) -> bool {
    forall|i: int, j: int| 0 <= i < j < s.len() ==> #[trigger] s[i].id != #[trigger] s[j].id
}

/// `index_of_id` is the first position that holds the id, or the length
/// when no position does.
pub proof fn lemma_index_of_id(s: Seq<TaskView>, id: u64)
    ensures
        0 <= index_of_id(s, id) <= s.len(),
        index_of_id(s, id) < s.len() ==> s[index_of_id(s, id)].id == id,
        forall|j: int| 0 <= j < index_of_id(s, id) ==> s[j].id != id,
        index_of_id(s, id) < s.len() <==> has_id(s, id),
    decreases s.len(),
{
    if s.len() > 0 && s[0].id != id {
        let t = s.drop_first();
        lemma_index_of_id(t, id);
        assert forall|j: int| 0 <= j < index_of_id(s, id) implies s[j].id != id by {
            if j > 0 {
                assert(s[j] == t[j - 1]);
            }
        }
        if has_id(s, id) {
            let k = choose|k: int| 0 <= k < s.len() && #[trigger] s[k].id == id;
            assert(t[k - 1].id == id);
        }
        if has_id(t, id) {
            let k = choose|k: int| 0 <= k < t.len() && #[trigger] t[k].id == id;
            assert(s[k + 1].id == id);
        }
    } else if s.len() > 0 {
        assert(s[0].id == id);
    }
}

/// Appending a task to `s` keeps the lookups of the ids already in `s`, and
/// makes the appended task the one found for its id otherwise.
pub proof fn lemma_lookup_push(s: Seq<TaskView>, x: TaskView, id: u64)
    ensures
        has_id(s.push(x), id) == (has_id(s, id) || x.id == id),
        lookup(s.push(x), id) == if has_id(s, id) {
            lookup(s, id)
        } else if x.id == id {
            Some(x)
        } else {
            None
        },
{
    let p = s.push(x);
    lemma_index_of_id(s, id);
    lemma_index_of_id(p, id);
    let i = index_of_id(s, id);
    let k = index_of_id(p, id);
    if has_id(s, id) {
        assert(p[i] == s[i]);
        assert(p[i].id == id);
        assert(has_id(p, id));
        if k < i {
            assert(s[k] == p[k]);
        }
        assert(k == i);
    } else {
        assert forall|j: int| 0 <= j < s.len() implies p[j].id != id by {
            assert(p[j] == s[j]);
        }
        if x.id == id {
            assert(p[s.len() as int].id == id);
            assert(has_id(p, id));
            assert(k == s.len());
        } else {
            assert(!has_id(p, id)) by {
                if has_id(p, id) {
                    let j = choose|j: int| 0 <= j < p.len() && #[trigger] p[j].id == id;
                    assert(j < s.len());
                }
            }
        }
    }
}

/// Removing an id from `s` after appending a task is appending the task
/// (when it does not have that id) to `s` without the id.
pub proof fn lemma_without_id_push(s: Seq<TaskView>, x: TaskView, id: u64)
    ensures
        without_id(s.push(x), id) == if x.id != id {
            without_id(s, id).push(x)
        } else {
            without_id(s, id)
        },
{
    reveal_with_fuel(Seq::filter, 1);
    assert(s.push(x).drop_last() =~= s);
}

/// Keeping one status after appending a task is appending the task (when it
/// has that status) to the tasks of `s` that keep it.
pub proof fn lemma_with_status_push(s: Seq<TaskView>, x: TaskView, status: TaskStatus)
    ensures
        with_status(s.push(x), status) == if x.status == status {
            with_status(s, status).push(x)
        } else {
            with_status(s, status)
        },
{
    reveal_with_fuel(Seq::filter, 1);
    assert(s.push(x).drop_last() =~= s);
}

/// The views of a sequence of tasks after a push.
pub proof fn lemma_task_views_push(v: Seq<Task>, t: Task)
    ensures
        task_views(v.push(t)) == task_views(v).push(t@),
{
    assert(task_views(v.push(t)) =~= task_views(v).push(t@));
}

/// Law: after a task is saved, looking up its id gives back that task.
pub proof fn lemma_lookup_after_save(s: Seq<TaskView>, t: TaskView)
    ensures
        lookup(upsert(s, t), t.id) == Some(t),
{
    lemma_index_of_id(s, t.id);
    let i = index_of_id(s, t.id);
    if i < s.len() {
        let u = s.update(i, t);
        lemma_index_of_id(u, t.id);
        let k = index_of_id(u, t.id);
        assert(u[i].id == t.id);
        if k < i {
            assert(u[k] == s[k]);
        }
        assert(has_id(u, t.id));
        assert(k == i);
    } else {
        lemma_lookup_push(s, t, t.id);
    }
}

/// Law: saving a task leaves what every other id looks up unchanged.
pub proof fn lemma_lookup_other_after_save(s: Seq<TaskView>, t: TaskView, id: u64)
    requires
        id != t.id,
    ensures
        lookup(upsert(s, t), id) == lookup(s, id),
        has_id(upsert(s, t), id) == has_id(s, id),
{
    lemma_index_of_id(s, t.id);
    let i = index_of_id(s, t.id);
    if i < s.len() {
        let u = s.update(i, t);
        lemma_index_of_id(s, id);
        lemma_index_of_id(u, id);
        let a = index_of_id(s, id);
        let b = index_of_id(u, id);
        assert forall|j: int| 0 <= j < s.len() implies (u[j].id == id) == (s[j].id == id) by {
            if j == i {
                assert(u[j] == t);
            } else {
                assert(u[j] == s[j]);
            }
        }
        if a < s.len() {
            assert(u[a].id == id);
            if b < a {
                assert(s[b].id == id);
            }
            assert(b == a);
            assert(u[a] == s[a]);
        } else {
            if b < u.len() {
                assert(s[b].id == id);
                assert(has_id(s, id));
            }
        }
    } else {
        lemma_index_of_id(s, id);
        lemma_lookup_push(s, t, id);
    }
}

/// Law: saving a task whose id is not yet used appends it.
pub proof fn lemma_save_fresh_appends(s: Seq<TaskView>, t: TaskView)
    requires
        !has_id(s, t.id),
    ensures
        upsert(s, t) == s.push(t),
{
    lemma_index_of_id(s, t.id);
}

/// Law: a task added with the next id is what its id then looks up.
pub proof fn lemma_lookup_after_add(s: Seq<TaskView>, t: TaskView)
    requires
        max_id(s) < u64::MAX,
        t.id == max_id(s) + 1,
    ensures
        lookup(s.push(t), t.id) == Some(t),
        forall|id: u64| id != t.id ==> lookup(#[trigger] s.push(t), id) == lookup(s, id),
{
    lemma_next_id_is_fresh(s);
    lemma_save_fresh_appends(s, t);
    lemma_lookup_after_save(s, t);
    assert forall|id: u64| id != t.id implies lookup(#[trigger] s.push(t), id) == lookup(s, id) by {
        lemma_lookup_other_after_save(s, t, id);
    }
}

/// The facts about removing an id, by induction on the sequence.
proof fn lemma_without_id_facts(s: Seq<TaskView>, id: u64, j: u64)
    ensures
        !has_id(without_id(s, id), id),
        !has_id(s, id) ==> without_id(s, id) == s,
        j != id ==> has_id(without_id(s, id), j) == has_id(s, j),
        j != id ==> lookup(without_id(s, id), j) == lookup(s, j),
        without_id(s, id).len() < s.len() <==> has_id(s, id),
    decreases s.len(),
{
    if s.len() == 0 {
        reveal_with_fuel(Seq::filter, 1);
        assert(!has_id(s, j));
        assert(!has_id(s, id));
        lemma_index_of_id(s, j);
    } else {
        let p = s.drop_last();
        let x = s.last();
        assert(p.push(x) =~= s);
        lemma_without_id_facts(p, id, j);
        lemma_without_id_push(p, x, id);
        lemma_lookup_push(p, x, id);
        lemma_lookup_push(p, x, j);
        p.lemma_filter_len(|t: TaskView| t.id != id);
        let w = without_id(p, id);
        lemma_index_of_id(p, j);
        lemma_index_of_id(w, j);
        if x.id != id {
            lemma_lookup_push(w, x, id);
            lemma_lookup_push(w, x, j);
        }
    }
}

/// Law: after an id is deleted, looking it up finds nothing.
pub proof fn lemma_lookup_after_delete(s: Seq<TaskView>, id: u64)
    ensures
        lookup(without_id(s, id), id) is None,
        !has_id(without_id(s, id), id),
{
    lemma_without_id_facts(s, id, id);
    lemma_index_of_id(without_id(s, id), id);
}

/// Law: deleting an id leaves what every other id looks up unchanged.
pub proof fn lemma_lookup_other_after_delete(s: Seq<TaskView>, id: u64, other: u64)
    requires
        other != id,
    ensures
        lookup(without_id(s, id), other) == lookup(s, other),
        has_id(without_id(s, id), other) == has_id(s, other),
{
    lemma_without_id_facts(s, id, other);
}

/// Law: deleting an id that no task has changes nothing, and deleting one
/// that a task has removes at least one task.
pub proof fn lemma_delete_changes_iff_present(s: Seq<TaskView>, id: u64)
    ensures
        !has_id(s, id) ==> without_id(s, id) == s,
        without_id(s, id).len() < s.len() <==> has_id(s, id),
{
    lemma_without_id_facts(s, id, id);
}

/// Every id in `s` is at most `max_id(s)`.
pub proof fn lemma_max_id_bounds(s: Seq<TaskView>)
    ensures
        forall|i: int| 0 <= i < s.len() ==> #[trigger] s[i].id <= max_id(s),
    decreases s.len(),
{
    if s.len() > 0 {
        let p = s.drop_last();
        lemma_max_id_bounds(p);
        assert forall|i: int| 0 <= i < s.len() implies #[trigger] s[i].id <= max_id(s) by {
            if i < p.len() {
                assert(s[i] == p[i]);
            }
        }
    }
}

/// Law: `max_id` is the greatest id held, not just a bound on the ids: it
/// is 0 for no task, and otherwise some task has it.
pub proof fn lemma_max_id_attained(s: Seq<TaskView>)
    ensures
        s.len() == 0 ==> max_id(s) == 0,
        s.len() > 0 ==> exists|i: int| 0 <= i < s.len() && #[trigger] s[i].id == max_id(s),
        forall|i: int| 0 <= i < s.len() ==> #[trigger] s[i].id <= max_id(s),
    decreases s.len(),
{
    lemma_max_id_bounds(s);
    if s.len() > 0 {
        let p = s.drop_last();
        lemma_max_id_attained(p);
        if s.last().id > max_id(p) || p.len() == 0 {
            assert(s[s.len() - 1].id == max_id(s));
        } else {
            let k = choose|k: int| 0 <= k < p.len() && #[trigger] p[k].id == max_id(p);
            assert(s[k] == p[k]);
            assert(s[k].id == max_id(s));
        }
    }
}

/// Law: the next id is exactly one more than the greatest id held (1 for
/// an empty store): some task has the id just below it and every task's id
/// is below it.
pub proof fn lemma_next_id_follows_greatest(s: Seq<TaskView>)
    requires
        max_id(s) < u64::MAX,
    ensures
        s.len() == 0 ==> max_id(s) + 1 == 1,
        s.len() > 0 ==> exists|i: int| 0 <= i < s.len() && #[trigger] s[i].id + 1 == max_id(s) + 1,
        forall|i: int| 0 <= i < s.len() ==> #[trigger] s[i].id < max_id(s) + 1,
{
    lemma_max_id_attained(s);
}

/// Law: the id after the greatest one is used by no task.
pub proof fn lemma_next_id_is_fresh(s: Seq<TaskView>)
    requires
        max_id(s) < u64::MAX,
    ensures
        !has_id(s, (max_id(s) + 1) as u64),
{
    lemma_max_id_bounds(s);
}

/// Law: saving keeps ids unique.
pub proof fn lemma_save_keeps_ids_unique(s: Seq<TaskView>, t: TaskView)
    requires
        ids_unique(s),
    ensures
        ids_unique(upsert(s, t)),
{
    lemma_index_of_id(s, t.id);
    let i = index_of_id(s, t.id);
    let u = upsert(s, t);
    if i < s.len() {
        assert forall|a: int, b: int| 0 <= a < b < u.len() implies #[trigger] u[a].id
            != #[trigger] u[b].id by {
            if a == i {
                assert(s[i].id == t.id);
                assert(s[b] == u[b]);
            } else if b == i {
                assert(s[i].id == t.id);
                assert(s[a] == u[a]);
            } else {
                assert(s[a] == u[a] && s[b] == u[b]);
            }
        }
    } else {
        assert forall|a: int, b: int| 0 <= a < b < u.len() implies #[trigger] u[a].id
            != #[trigger] u[b].id by {
            if b == s.len() {
                assert(u[a] == s[a]);
            } else {
                assert(s[a] == u[a] && s[b] == u[b]);
            }
        }
    }
}

/// Law: deleting keeps ids unique.
pub proof fn lemma_delete_keeps_ids_unique(s: Seq<TaskView>, id: u64)
    requires
        ids_unique(s),
    ensures
        ids_unique(without_id(s, id)),
    decreases s.len(),
{
    if s.len() == 0 {
        reveal_with_fuel(Seq::filter, 1);
    } else {
        let p = s.drop_last();
        let x = s.last();
        assert(p.push(x) =~= s);
        assert(ids_unique(p)) by {
            assert forall|a: int, b: int| 0 <= a < b < p.len() implies #[trigger] p[a].id
                != #[trigger] p[b].id by {
                assert(p[a] == s[a] && p[b] == s[b]);
            }
        }
        lemma_delete_keeps_ids_unique(p, id);
        lemma_without_id_push(p, x, id);
        let w = without_id(p, id);
        if x.id != id {
            lemma_without_id_facts(p, id, x.id);
            assert(!has_id(p, x.id)) by {
                if has_id(p, x.id) {
                    let k = choose|k: int| 0 <= k < p.len() && #[trigger] p[k].id == x.id;
                    assert(s[k].id == s[s.len() - 1].id);
                }
            }
            let ww = w.push(x);
            assert forall|a: int, b: int| 0 <= a < b < ww.len() implies #[trigger] ww[a].id
                != #[trigger] ww[b].id by {
                if b == w.len() {
                    assert(ww[a] == w[a]);
                    if w[a].id == x.id {
                        assert(has_id(w, x.id));
                    }
                } else {
                    assert(ww[a] == w[a] && ww[b] == w[b]);
                }
            }
        }
    }
}

/// Law: the lists of todo, in-progress and done tasks together hold every
/// task exactly once: their lengths add up to the number of tasks.
pub proof fn lemma_status_lists_partition(s: Seq<TaskView>)
    ensures
        with_status(s, TaskStatus::Todo).len() + with_status(s, TaskStatus::InProgress).len()
            + with_status(s, TaskStatus::Done).len() == s.len(),
    decreases s.len(),
{
    if s.len() == 0 {
        reveal_with_fuel(Seq::filter, 1);
    } else {
        let p = s.drop_last();
        let x = s.last();
        assert(p.push(x) =~= s);
        lemma_status_lists_partition(p);
        lemma_with_status_push(p, x, TaskStatus::Todo);
        lemma_with_status_push(p, x, TaskStatus::InProgress);
        lemma_with_status_push(p, x, TaskStatus::Done);
    }
}

/// Law: every task listed under a status has that status, and every task
/// with that status is listed.
pub proof fn lemma_with_status_exact(s: Seq<TaskView>, status: TaskStatus)
    ensures
        forall|i: int|
            0 <= i < with_status(s, status).len() ==> (#[trigger] with_status(s, status)[i]).status
                == status,
        forall|i: int|
            0 <= i < s.len() && s[i].status == status ==> with_status(s, status).contains(
                #[trigger] s[i],
            ),
{
    broadcast use vstd::seq_lib::group_filter_ensures;

}

/// Whether a description is as the domain leaves it: not empty, with no
/// white space around it.
pub open spec fn canonical_description(d: Seq<char>) -> bool {
    d.len() > 0 && trimmed(d) == d
}

/// Whether every task of `s` has a canonical description.
pub open spec fn descriptions_canonical(s: Seq<TaskView>) -> bool {
    forall|i: int| 0 <= i < s.len() ==> canonical_description(#[trigger] s[i].description)
}

/// Law: a description accepted by the domain is stored in canonical form.
pub proof fn lemma_accepted_description_is_canonical(d: Seq<char>)
    requires
        trimmed(d).len() > 0,
    ensures
        canonical_description(trimmed(d)),
{
    lemma_trimmed_is_trimmed(d);
}

/// Law: saving a task with a canonical description keeps every stored
/// description canonical.
pub proof fn lemma_save_keeps_descriptions_canonical(s: Seq<TaskView>, t: TaskView)
    requires
        descriptions_canonical(s),
        canonical_description(t.description),
    ensures
        descriptions_canonical(upsert(s, t)),
{
    let u = upsert(s, t);
    lemma_index_of_id(s, t.id);
    assert forall|i: int| 0 <= i < u.len() implies canonical_description(
        #[trigger] u[i].description,
    ) by {
        if i < s.len() && i != index_of_id(s, t.id) {
            assert(u[i] == s[i]);
        }
    }
}

/// Law: deleting keeps every stored description canonical.
pub proof fn lemma_delete_keeps_descriptions_canonical(s: Seq<TaskView>, id: u64)
    requires
        descriptions_canonical(s),
    ensures
        descriptions_canonical(without_id(s, id)),
    decreases s.len(),
{
    if s.len() == 0 {
        reveal_with_fuel(Seq::filter, 1);
    } else {
        let p = s.drop_last();
        let x = s.last();
        assert(p.push(x) =~= s);
        assert(descriptions_canonical(p)) by {
            assert forall|i: int| 0 <= i < p.len() implies canonical_description(
                #[trigger] p[i].description,
            ) by {
                assert(p[i] == s[i]);
            }
        }
        lemma_delete_keeps_descriptions_canonical(p, id);
        lemma_without_id_push(p, x, id);
        let w = without_id(p, id);
        assert(canonical_description(s[s.len() - 1].description));
        if x.id != id {
            let ww = w.push(x);
            assert forall|i: int| 0 <= i < ww.len() implies canonical_description(
                #[trigger] ww[i].description,
            ) by {
                if i < w.len() {
                    assert(ww[i] == w[i]);
                }
            }
        }
    }
}

} // verus!
