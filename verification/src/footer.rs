//! The footer under the list: the count of items left and the filter links.

use vstd::prelude::*;
use crate::todo::{Todo, has_status};
use crate::list::visible;
use crate::text::same_text;

verus! {

/// The three filter links.
#[derive(Clone, Copy, Debug, PartialEq, Eq, Structural)]
pub enum FilterLink {
    All,
    Active,
    Completed,
}

/// The words that follow the count of open todos.
pub open spec fn items_left_text(count: nat) -> Seq<char> {
    if count == 1 {
        " item left"@
    } else {
        " items left"@
    }
}

/// Whether `link` shows as the selected one under the filter word `filter`:
/// All where the word is empty, Active and Completed where it is their name.
pub open spec fn link_is_selected(filter: Seq<char>, link: FilterLink) -> bool {
    match link {
        FilterLink::All => filter.len() == 0,
        FilterLink::Active => filter == "active"@,
        FilterLink::Completed => filter == "completed"@,
    }
}

/// The words that follow the count of open todos.
pub fn items_left_label(count: usize) -> (r: String)
    ensures
        r@ == items_left_text(count as nat),
{
    if count == 1 {
        " item left".to_owned()
    } else {
        " items left".to_owned()
    }
}

/// Whether `link` shows as the selected one under the filter word `filter`.
pub fn link_selected(filter: &str, link: FilterLink) -> (r: bool)
    ensures
        r == link_is_selected(filter@, link),
{
    match link {
        FilterLink::All => filter.is_empty(),
        FilterLink::Active => same_text(filter, "active"),
        FilterLink::Completed => same_text(filter, "completed"),
    }
}

/// At most one link is selected, and a selected link names what the list
/// shows: Active the open todos, Completed the done ones, All every todo.
pub proof fn law_selected_link(filter: Seq<char>, todos: Seq<Todo>)
    ensures
        !(link_is_selected(filter, FilterLink::All) && link_is_selected(filter, FilterLink::Active)),
        !(link_is_selected(filter, FilterLink::All) && link_is_selected(filter, FilterLink::Completed)),
        !(link_is_selected(filter, FilterLink::Active) && link_is_selected(filter, FilterLink::Completed)),
        link_is_selected(filter, FilterLink::All) ==> visible(todos, filter) == todos,
        link_is_selected(filter, FilterLink::Active) ==> visible(todos, filter) == todos.filter(has_status(false)),
        link_is_selected(filter, FilterLink::Completed) ==> visible(todos, filter) == todos.filter(has_status(true)),
{
    reveal_strlit("active");
    reveal_strlit("completed");
    assert("completed"@.len() != "active"@.len());
}

/// The singular wording goes with a count of exactly one, and every other
/// count, zero included, reads in the plural.
pub proof fn law_items_left_wording(count: nat)
    ensures
        (items_left_text(count) == " item left"@) <==> count == 1,
        count != 1 ==> items_left_text(count) == " items left"@,
{
    reveal_strlit(" item left");
    reveal_strlit(" items left");
    assert(" item left"@.len() != " items left"@.len());
}

} // verus!
