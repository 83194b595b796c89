//! The page as a whole: the new-todo box, the filter that the address hash
//! picks, and the list that the backend's replies keep up to date.

use vstd::prelude::*;
use crate::todo::Todo;
use crate::text::{same_text, trim_text, trim_start_matches_text, trimmed, strip_leading, law_trimmed_ends, is_whitespace};
use crate::list::{
    visible, every_completed, replaced, removed, filter_todos, all_completed, replace_todo,
    remove_todo,
};

verus! {

/// The state of the page.
pub struct TodoAppState {
    pub todos: Vec<Todo>,
    pub new_title: String,
    pub filter: String,
}

/// The state of the page as plain values.
pub struct AppView {
    pub todos: Seq<Todo>,
    pub new_title: Seq<char>,
    pub filter: Seq<char>,
}

impl View for TodoAppState {
    type V = AppView;

    open spec fn view(&self) -> AppView {
        AppView { todos: self.todos@, new_title: self.new_title@, filter: self.filter@ }
    }
}

/// The filter word in an address hash: the hash with every leading `#/` cut.
pub open spec fn filter_of_hash(hash: Seq<char>) -> Seq<char> {
    strip_leading(hash, "#/"@)
}

/// The page as it first shows, before the backend has answered: no todos, an
/// empty box, and the filter of the current hash.
pub open spec fn app_init(hash: Seq<char>) -> AppView {
    AppView { todos: Seq::empty(), new_title: Seq::empty(), filter: filter_of_hash(hash) }
}

/// A key in the new-todo box: Enter with a title that is not blank after
/// trimming empties the box and asks for a todo of the trimmed title; any
/// other case changes nothing and asks for nothing.
pub open spec fn app_key(s: AppView, key: Seq<char>) -> (AppView, Option<Seq<char>>) {
    if key == "Enter"@ && trimmed(s.new_title).len() > 0 {
        (AppView { new_title: Seq::empty(), ..s }, Some(trimmed(s.new_title)))
    } else {
        (s, None)
    }
}

/// The filter word of an address hash.
pub fn filter_from_hash(hash: &str) -> (r: String)
    ensures
        r@ == filter_of_hash(hash@),
{
    proof {
        reveal_strlit("#/");
    }
    trim_start_matches_text(hash, "#/")
}

impl TodoAppState {
    /// The page on first showing, at address hash `hash`. The client then
    /// asks the backend for the list.
    pub fn new(hash: &str) -> (s: Self)
        ensures
            s@ == app_init(hash@),
    {
        TodoAppState { todos: Vec::new(), new_title: String::new(), filter: filter_from_hash(hash) }
    }

    /// The address hash changed to `hash`.
    pub fn hash_changed(&mut self, hash: &str)
        ensures
            final(self)@ == (AppView { filter: filter_of_hash(hash@), ..old(self)@ }),
    {
        self.filter = filter_from_hash(hash);
    }

    /// The new-todo box now holds `value`.
    pub fn title_input(&mut self, value: String)
        ensures
            final(self)@ == (AppView { new_title: value@, ..old(self)@ }),
    {
        self.new_title = value;
    }

    /// A key was pressed in the new-todo box; gives the title of the todo to
    /// create, if any.
    pub fn key_down(&mut self, key: &str) -> (r: Option<String>)
        ensures
            (final(self)@, match r { Some(t) => Some(t@), None => None }) == app_key(old(self)@, key@),
    {
        if same_text(key, "Enter") {
            let title = trim_text(self.new_title.as_str());
            if !title.as_str().is_empty() {
                self.new_title = String::new();
                return Some(title);
            }
        }
        None
    }

    /// The backend sent the whole list (on loading, after toggling all,
    /// after clearing the completed ones).
    pub fn todos_loaded(&mut self, todos: Vec<Todo>)
        ensures
            final(self)@ == (AppView { todos: todos@, ..old(self)@ }),
    {
        self.todos = todos;
    }

    /// The backend created `todo`: it joins the end of the list.
    pub fn todo_created(&mut self, todo: Todo)
        ensures
            final(self)@ == (AppView { todos: old(self)@.todos.push(todo), ..old(self)@ }),
    {
        self.todos.push(todo);
    }

    /// The backend stored a change to the todo of id `id` and sent it back.
    pub fn todo_updated(&mut self, id: i64, updated: Todo)
        ensures
            final(self)@ == (AppView { todos: replaced(old(self)@.todos, id, updated), ..old(self)@ }),
    {
        replace_todo(&mut self.todos, id, updated);
    }

    /// The backend deleted the todo of id `id`.
    pub fn todo_deleted(&mut self, id: i64)
        ensures
            final(self)@ == (AppView { todos: removed(old(self)@.todos, id), ..old(self)@ }),
    {
        remove_todo(&mut self.todos, id);
    }

    /// The todos that the current filter shows.
    pub fn visible_todos(&self) -> (r: Vec<Todo>)
        ensures
            r@ == visible(self.todos@, self.filter@),
    {
        filter_todos(&self.todos, self.filter.as_str())
    }

    /// Whether there are todos, which decides whether the list and its footer
    /// show at all.
    pub fn has_todos(&self) -> (r: bool)
        ensures
            r == (self.todos@.len() > 0),
    {
        self.todos.len() > 0
    }

    /// Whether the toggle-all box shows as checked.
    pub fn all_completed(&self) -> (r: bool)
        ensures
            r == every_completed(self.todos@),
    {
        all_completed(&self.todos)
    }
}

/// After `strip_leading`, the text no longer starts with the pattern.
pub proof fn lemma_strip_leading_done(s: Seq<char>, pat: Seq<char>)
    requires
        pat.len() > 0,
    ensures
        !(pat.len() <= strip_leading(s, pat).len()
            && strip_leading(s, pat).subrange(0, pat.len() as int) == pat),
    decreases s.len(),
{
    if pat.len() <= s.len() && s.subrange(0, pat.len() as int) == pat {
        lemma_strip_leading_done(s.subrange(pat.len() as int, s.len() as int), pat);
    }
}

/// Reading the filter word off a hash that already is a filter word gives
/// the same word.
pub proof fn law_filter_of_hash_stable(hash: Seq<char>)
    ensures
        filter_of_hash(filter_of_hash(hash)) == filter_of_hash(hash),
{
    reveal_strlit("#/");
    lemma_strip_leading_done(hash, "#/"@);
}

/// A key in the new-todo box never touches the list or the filter; a title
/// that it asks for is the trimmed box, is not empty, and neither starts nor
/// ends with whitespace; a blank box asks for nothing and stays as it was.
pub proof fn law_new_todo_title(s: AppView, key: Seq<char>)
    ensures
        app_key(s, key).0.todos == s.todos,
        app_key(s, key).0.filter == s.filter,
        app_key(s, key).1 matches Some(t) ==> {
            &&& t == trimmed(s.new_title)
            &&& t.len() > 0
            &&& !is_whitespace(t[0])
            &&& !is_whitespace(t.last())
            &&& app_key(s, key).0.new_title.len() == 0
        },
        trimmed(s.new_title).len() == 0 ==> app_key(s, key) == (s, None::<Seq<char>>),
{
    law_trimmed_ends(s.new_title);
}

/// Enter on a box that is not blank after trimming always asks for a todo
/// of the trimmed text and empties the box, whatever todos the list already
/// holds: what a key asks for never depends on the list.
pub proof fn law_enter_creates(s: AppView, other: Seq<Todo>, key: Seq<char>)
    ensures
        trimmed(s.new_title).len() > 0 ==> app_key(s, "Enter"@) == (
            AppView { new_title: Seq::empty(), ..s },
            Some(trimmed(s.new_title)),
        ),
        app_key(AppView { todos: other, ..s }, key).1 == app_key(s, key).1,
        app_key(AppView { todos: other, ..s }, key).0.new_title == app_key(s, key).0.new_title,
{
}

/// The filter word drops one leading `#/` after the other and keeps a hash
/// that does not start with `#/` as it is.
pub proof fn law_filter_of_hash_cuts_prefix(hash: Seq<char>)
    ensures
        filter_of_hash("#/"@ + hash) == filter_of_hash(hash),
        !(hash.len() >= 2 && hash[0] == '#' && hash[1] == '/') ==> filter_of_hash(hash) == hash,
{
    reveal_strlit("#/");
    let p = "#/"@;
    let h = p + hash;
    assert(h.subrange(0, 2) =~= p);
    assert(h.subrange(2, h.len() as int) =~= hash);
    if hash.len() >= 2 && hash.subrange(0, 2) == p {
        assert(hash[0] == hash.subrange(0, 2)[0]);
        assert(hash[1] == hash.subrange(0, 2)[1]);
    }
}

} // verus!
