//! The records that the backend stores and the client shows.

use vstd::prelude::*;

verus! {

/// One todo as the backend stores it and the API hands it out.
#[derive(Debug, PartialEq, Eq)]
pub struct Todo {
    pub id: i64,
    pub title: String,
    pub completed: bool,
    pub order: i64,
}

/// The body of a request that creates a todo.
#[derive(Debug, PartialEq, Eq)]
pub struct CreateTodo {
    pub title: String,
}

/// The body of a request that changes a todo: each field that is present
/// replaces the stored one, each field that is absent leaves it alone.
#[derive(Debug, PartialEq, Eq)]
pub struct UpdateTodo {
    pub title: Option<String>,
    pub completed: Option<bool>,
    pub order: Option<i64>,
}

impl Clone for Todo {
    fn clone(&self) -> (r: Self)
        ensures
            r == *self,
    {
        Todo { id: self.id, title: self.title.clone(), completed: self.completed, order: self.order }
    }
}

/// The predicate of todos whose completion flag is `done`.
pub open spec fn has_status(done: bool) -> spec_fn(Todo) -> bool {
    |t: Todo| t.completed == done
}

/// The predicate of todos whose id differs from `id`.
pub open spec fn other_id_pred(id: i64) -> spec_fn(Todo) -> bool {
    |t: Todo| t.id != id
}

/// What an update request asks for, as plain values.
pub struct UpdateView {
    pub title: Option<Seq<char>>,
    pub completed: Option<bool>,
    pub order: Option<i64>,
}

/// The characters of an optional text.
pub open spec fn opt_text(o: Option<String>) -> Option<Seq<char>> {
    match o {
        Some(t) => Some(t@),
        None => None,
    }
}

impl View for UpdateTodo {
    type V = UpdateView;

    open spec fn view(&self) -> UpdateView {
        UpdateView { title: opt_text(self.title), completed: self.completed, order: self.order }
    }
}

} // verus!
