//! The client's list of todos: which of them a filter shows, what the counts
//! over it are, and how a reply of the backend changes it.

use vstd::prelude::*;
use crate::todo::{Todo, has_status, other_id_pred};
use crate::text::same_text;


verus! {

/// The todos that the filter word `filter` shows: the open ones for
/// `active`, the done ones for `completed`, all of them for any other word.
pub open spec fn visible(todos: Seq<Todo>, filter: Seq<char>) -> Seq<Todo> {
    if filter == "active"@ {
        todos.filter(has_status(false))
    } else if filter == "completed"@ {
        todos.filter(has_status(true))
    } else {
        todos
    }
}

/// The number of todos that are not completed.
pub open spec fn count_active(todos: Seq<Todo>) -> nat {
    todos.filter(has_status(false)).len()
}

/// Whether some todo is completed.
pub open spec fn any_completed(todos: Seq<Todo>) -> bool {
    exists|k: int| 0 <= k < todos.len() && #[trigger] todos[k].completed
}

/// Whether there are todos and every one of them is completed.
pub open spec fn every_completed(todos: Seq<Todo>) -> bool {
    todos.len() > 0 && forall|k: int| 0 <= k < todos.len() ==> #[trigger] todos[k].completed
}

/// `k` is the first position in `todos` that holds a todo with id `id`.
pub open spec fn is_first_with_id(todos: Seq<Todo>, id: i64, k: int) -> bool {
    &&& 0 <= k < todos.len()
    &&& todos[k].id == id
    &&& forall|j: int| 0 <= j < k ==> (#[trigger] todos[j]).id != id
}

/// `todos` with its first todo of id `id` replaced by `t`; unchanged where
/// no todo has that id.
pub open spec fn replaced(todos: Seq<Todo>, id: i64, t: Todo) -> Seq<Todo> {
    if exists|k: int| is_first_with_id(todos, id, k) {
        todos.update(choose|k: int| is_first_with_id(todos, id, k), t)
    } else {
        todos
    }
}

/// `todos` without the todos of id `id`.
pub open spec fn removed(todos: Seq<Todo>, id: i64) -> Seq<Todo> {
    todos.filter(other_id_pred(id))
}

/// A copy of `todos`.
pub fn copy_todos(todos: &Vec<Todo>) -> (r: Vec<Todo>)
    ensures
        r@ == todos@,
{
    let mut r: Vec<Todo> = Vec::new();
    let mut i: usize = 0;
    while i < todos.len()
        invariant
            0 <= i <= todos.len(),
            r@ == todos@.take(i as int),
        decreases todos.len() - i,
    {
        r.push(todos[i].clone());
        assert(r@ =~= todos@.take(i + 1));
        i += 1;
    }
    assert(todos@.take(todos.len() as int) =~= todos@);
    r
}

/// The todos whose completion flag is `done`, in their order.
fn with_status(todos: &Vec<Todo>, done: bool) -> (r: Vec<Todo>)
    ensures
        r@ == todos@.filter(has_status(done)),
{
    let mut r: Vec<Todo> = Vec::new();
    let mut i: usize = 0;
    while i < todos.len()
        invariant
            0 <= i <= todos.len(),
            r@ == todos@.take(i as int).filter(has_status(done)),
        decreases todos.len() - i,
    {
        proof {
            reveal(Seq::filter);
            assert(todos@.take(i + 1).drop_last() =~= todos@.take(i as int));
            assert(todos@.take(i + 1).last() == todos@[i as int]);
        }
        if todos[i].completed == done {
            r.push(todos[i].clone());
        }
        i += 1;
    }
    assert(todos@.take(todos.len() as int) =~= todos@);
    r
}

/// The todos that the filter word `filter` shows, in their order.
pub fn filter_todos(todos: &Vec<Todo>, filter: &str) -> (r: Vec<Todo>)
    ensures
        r@ == visible(todos@, filter@),
{
    if same_text(filter, "active") {
        with_status(todos, false)
    } else if same_text(filter, "completed") {
        with_status(todos, true)
    } else {
        copy_todos(todos)
    }
}

/// The number of todos that are not completed.
pub fn active_count(todos: &Vec<Todo>) -> (n: usize)
    ensures
        n == count_active(todos@),
{
    let mut n: usize = 0;
    let mut i: usize = 0;
    while i < todos.len()
        invariant
            0 <= i <= todos.len(),
            n == todos@.take(i as int).filter(has_status(false)).len(),
            n <= i,
        decreases todos.len() - i,
    {
        proof {
            reveal(Seq::filter);
            assert(todos@.take(i + 1).drop_last() =~= todos@.take(i as int));
            assert(todos@.take(i + 1).last() == todos@[i as int]);
        }
        if !todos[i].completed {
            n += 1;
        }
        i += 1;
    }
    assert(todos@.take(todos.len() as int) =~= todos@);
    n
}

/// Whether some todo is completed.
pub fn has_completed(todos: &Vec<Todo>) -> (r: bool)
    ensures
        r == any_completed(todos@),
{
    let mut i: usize = 0;
    while i < todos.len()
        invariant
            0 <= i <= todos.len(),
            forall|k: int| 0 <= k < i ==> !(#[trigger] todos@[k]).completed,
        decreases todos.len() - i,
    {
        if todos[i].completed {
            assert(todos@[i as int].completed);
            return true;
        }
        i += 1;
    }
    false
}

/// Whether there are todos and all of them are completed.
pub fn all_completed(todos: &Vec<Todo>) -> (r: bool)
    ensures
        r == every_completed(todos@),
{
    if todos.len() == 0 {
        return false;
    }
    let mut i: usize = 0;
    while i < todos.len()
        invariant
            0 <= i <= todos.len(),
            forall|k: int| 0 <= k < i ==> (#[trigger] todos@[k]).completed,
        decreases todos.len() - i,
    {
        if !todos[i].completed {
            return false;
        }
        i += 1;
    }
    true
}

/// Replaces the first todo of id `id` by `updated`; leaves the list as it
/// was where no todo has that id.
pub fn replace_todo(todos: &mut Vec<Todo>, id: i64, updated: Todo)
    ensures
        final(todos)@ == replaced(old(todos)@, id, updated),
{
    let mut i: usize = 0;
    while i < todos.len()
        invariant
            0 <= i <= todos.len(),
            todos@ == old(todos)@,
            forall|j: int| 0 <= j < i ==> (#[trigger] todos@[j]).id != id,
        decreases todos.len() - i,
    {
        if todos[i].id == id {
            assert(is_first_with_id(old(todos)@, id, i as int));
            proof {
                let k = choose|k: int| is_first_with_id(old(todos)@, id, k);
                assert(k == i) by {
                    if k < i {
                        assert(old(todos)@[k].id != id);
                    } else if k > i {
                        assert(old(todos)@[i as int].id != id);
                    }
                }
            }
            todos.set(i, updated);
            return;
        }
        i += 1;
    }
    assert(!exists|k: int| is_first_with_id(old(todos)@, id, k));
}

/// Removes every todo of id `id`, keeping the others in their order.
pub fn remove_todo(todos: &mut Vec<Todo>, id: i64)
    ensures
        final(todos)@ == removed(old(todos)@, id),
{
    let mut r: Vec<Todo> = Vec::new();
    let mut i: usize = 0;
    while i < todos.len()
        invariant
            0 <= i <= todos.len(),
            todos@ == old(todos)@,
            r@ == todos@.take(i as int).filter(other_id_pred(id)),
        decreases todos.len() - i,
    {
        proof {
            reveal(Seq::filter);
            assert(todos@.take(i + 1).drop_last() =~= todos@.take(i as int));
            assert(todos@.take(i + 1).last() == todos@[i as int]);
        }
        if todos[i].id != id {
            r.push(todos[i].clone());
        }
        i += 1;
    }
    assert(todos@.take(todos.len() as int) =~= todos@);
    *todos = r;
}

/// The todos of one status and those of the other together make up the list.
pub proof fn lemma_status_split(todos: Seq<Todo>)
    ensures
        todos.filter(has_status(false)).len() + todos.filter(has_status(true)).len() == todos.len(),
    decreases todos.len(),
{
    reveal(Seq::filter);
    if todos.len() > 0 {
        lemma_status_split(todos.drop_last());
    }
}

/// Filtering twice by one predicate keeps what filtering once keeps.
pub proof fn lemma_filter_twice(s: Seq<Todo>, pred: spec_fn(Todo) -> bool)
    ensures
        s.filter(pred).filter(pred) == s.filter(pred),
    decreases s.len(),
{
    reveal(Seq::filter);
    if s.len() > 0 {
        lemma_filter_twice(s.drop_last(), pred);
        let f = s.drop_last().filter(pred);
        if pred(s.last()) {
            assert(f.push(s.last()).drop_last() =~= f);
        }
    }
}

/// No todo is open exactly when every todo is completed.
pub proof fn lemma_no_active_iff_all_done(todos: Seq<Todo>)
    ensures
        count_active(todos) == 0 <==> forall|k: int| 0 <= k < todos.len() ==> #[trigger] todos[k].completed,
    decreases todos.len(),
{
    reveal(Seq::filter);
    if todos.len() > 0 {
        let d = todos.drop_last();
        lemma_no_active_iff_all_done(d);
        assert forall|k: int| 0 <= k < d.len() implies #[trigger] d[k] == todos[k] by {}
        if forall|k: int| 0 <= k < todos.len() ==> #[trigger] todos[k].completed {
            assert(todos[todos.len() - 1].completed);
            assert forall|k: int| 0 <= k < d.len() implies #[trigger] d[k].completed by {
                assert(todos[k].completed);
            }
        }
        if count_active(todos) == 0 {
            assert forall|k: int| 0 <= k < todos.len() implies #[trigger] todos[k].completed by {
                if k < d.len() {
                    assert(d[k].completed);
                }
            }
        }
    }
}

/// The Active view and the Completed view together show every todo once:
/// their sizes add up to the size of the list.
pub proof fn law_views_split_list(todos: Seq<Todo>)
    ensures
        visible(todos, "active"@).len() + visible(todos, "completed"@).len() == todos.len(),
{
    reveal_strlit("active");
    reveal_strlit("completed");
    assert("completed"@.len() != "active"@.len());
    lemma_status_split(todos);
}

/// Applying a filter to the todos that it already shows changes nothing.
pub proof fn law_view_of_view(todos: Seq<Todo>, filter: Seq<char>)
    ensures
        visible(visible(todos, filter), filter) == visible(todos, filter),
{
    lemma_filter_twice(todos, has_status(false));
    lemma_filter_twice(todos, has_status(true));
}

/// The count of items left is the size of the Active view, and the list is
/// all done exactly when it is not empty and nothing is left.
pub proof fn law_counts_agree(todos: Seq<Todo>)
    ensures
        count_active(todos) == visible(todos, "active"@).len(),
        every_completed(todos) <==> (todos.len() > 0 && count_active(todos) == 0),
        any_completed(todos) <==> visible(todos, "completed"@).len() > 0,
{
    broadcast use vstd::seq_lib::group_filter_ensures;
    reveal_strlit("active");
    reveal_strlit("completed");
    assert("completed"@.len() != "active"@.len());
    lemma_no_active_iff_all_done(todos);
    let c = todos.filter(has_status(true));
    if any_completed(todos) {
        let k = choose|k: int| 0 <= k < todos.len() && #[trigger] todos[k].completed;
        assert(has_status(true)(todos[k]));
        assert(c.contains(todos[k]));
    }
    if c.len() > 0 {
        assert(has_status(true)(c[0]));
        assert(c.contains(c[0]));
        todos.lemma_filter_contains_rev(has_status(true), c[0]);
        let k = choose|k: int| 0 <= k < todos.len() && todos[k] == c[0];
        assert(todos[k].completed);
    }
}

/// After a removal no todo of that id is left, and every todo of another id
/// is still there.
pub proof fn law_removed(todos: Seq<Todo>, id: i64)
    ensures
        forall|k: int| 0 <= k < removed(todos, id).len() ==> (#[trigger] removed(todos, id)[k]).id != id,
        forall|k: int| 0 <= k < todos.len() && (#[trigger] todos[k]).id != id ==> removed(todos, id).contains(todos[k]),
        removed(todos, id).len() <= todos.len(),
{
    broadcast use vstd::seq_lib::group_filter_ensures;
    assert forall|k: int| 0 <= k < removed(todos, id).len() implies (#[trigger] removed(todos, id)[k]).id != id by {
        assert(other_id_pred(id)(removed(todos, id)[k]));
    }
    assert forall|k: int| 0 <= k < todos.len() && (#[trigger] todos[k]).id != id implies removed(todos, id).contains(todos[k]) by {
        assert(other_id_pred(id)(todos[k]));
    }
}

/// A replacement keeps the size of the list and the todos at every other
/// position; where the new todo keeps the id, the ids stay as they were.
pub proof fn law_replaced(todos: Seq<Todo>, id: i64, t: Todo)
    ensures
        replaced(todos, id, t).len() == todos.len(),
        t.id == id ==> forall|k: int| 0 <= k < todos.len() ==> (#[trigger] replaced(todos, id, t)[k]).id == todos[k].id,
        (forall|k: int| 0 <= k < todos.len() ==> (#[trigger] todos[k]).id != id) ==> replaced(todos, id, t) == todos,
{
    if exists|k: int| is_first_with_id(todos, id, k) {
        let k = choose|k: int| is_first_with_id(todos, id, k);
        assert(todos[k].id == id);
    }
}

/// Removal works todo by todo and keeps the order: removing from two lists
/// put together gives the two removals put together, a single todo stays
/// exactly when its id differs, and nothing comes out of nothing.
pub proof fn law_removed_keeps_order(a: Seq<Todo>, b: Seq<Todo>, t: Todo, id: i64)
    ensures
        removed(a + b, id) == removed(a, id) + removed(b, id),
        removed(seq![t], id) == (if t.id == id { Seq::<Todo>::empty() } else { seq![t] }),
        removed(Seq::<Todo>::empty(), id) == Seq::<Todo>::empty(),
{
    Seq::filter_distributes_over_add(a, b, other_id_pred(id));
    reveal(Seq::filter);
    assert(seq![t].drop_last() =~= Seq::<Todo>::empty());
    assert(Seq::<Todo>::empty().filter(other_id_pred(id)) =~= Seq::<Todo>::empty());
}

/// The views and the count work todo by todo and keep the order: for two
/// lists put together they are the two results put together; a single todo
/// shows under Active exactly when it is open, under Completed exactly when
/// it is done, under any other word always, and counts one exactly when it
/// is open.
pub proof fn law_views_keep_order(a: Seq<Todo>, b: Seq<Todo>, t: Todo, filter: Seq<char>)
    ensures
        visible(a + b, filter) == visible(a, filter) + visible(b, filter),
        count_active(a + b) == count_active(a) + count_active(b),
        visible(seq![t], "active"@) == (if t.completed { Seq::<Todo>::empty() } else { seq![t] }),
        visible(seq![t], "completed"@) == (if t.completed { seq![t] } else { Seq::<Todo>::empty() }),
        filter != "active"@ && filter != "completed"@ ==> visible(seq![t], filter) == seq![t],
        count_active(seq![t]) == (if t.completed { 0nat } else { 1nat }),
{
    reveal_strlit("active");
    reveal_strlit("completed");
    assert("completed"@.len() != "active"@.len());
    Seq::filter_distributes_over_add(a, b, has_status(false));
    Seq::filter_distributes_over_add(a, b, has_status(true));
    reveal(Seq::filter);
    assert(seq![t].drop_last() =~= Seq::<Todo>::empty());
    assert(Seq::<Todo>::empty().filter(has_status(false)) =~= Seq::<Todo>::empty());
    assert(Seq::<Todo>::empty().filter(has_status(true)) =~= Seq::<Todo>::empty());
}

/// A replacement puts the new todo at the first position that holds the id
/// and leaves every other position as it was.
pub proof fn law_replaced_positions(todos: Seq<Todo>, id: i64, t: Todo)
    ensures
        replaced(todos, id, t).len() == todos.len(),
        forall|k: int| 0 <= k < todos.len() ==> (#[trigger] replaced(todos, id, t)[k]) == (
            if todos[k].id == id && (forall|j: int| 0 <= j < k ==> todos[j].id != id) { t } else { todos[k] }),
{
    if exists|k: int| is_first_with_id(todos, id, k) {
        let c = choose|k: int| is_first_with_id(todos, id, k);
        assert forall|k: int| 0 <= k < todos.len() implies (#[trigger] replaced(todos, id, t)[k]) == (
            if todos[k].id == id && (forall|j: int| 0 <= j < k ==> todos[j].id != id) { t } else { todos[k] }) by {
            if k == c {
            } else if todos[k].id == id && (forall|j: int| 0 <= j < k ==> todos[j].id != id) {
                if c < k {
                    assert(todos[c].id != id);
                } else {
                    assert(todos[k].id != id);
                }
            }
        }
    } else {
        assert forall|k: int| 0 <= k < todos.len() implies (#[trigger] replaced(todos, id, t)[k]) == (
            if todos[k].id == id && (forall|j: int| 0 <= j < k ==> todos[j].id != id) { t } else { todos[k] }) by {
            if todos[k].id == id && (forall|j: int| 0 <= j < k ==> todos[j].id != id) {
                assert(is_first_with_id(todos, id, k));
            }
        }
    }
}

} // verus!
