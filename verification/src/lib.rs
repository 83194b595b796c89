//! A verified core for a TodoMVC application: the shared todo records, the
//! decisions that the HTTP backend takes around its database queries, and the
//! client-side state machines of the todo list, its items and its footer.

pub mod todo;
pub mod text;
pub mod list;
pub mod item;
pub mod todo_app;
pub mod footer;
pub mod backend;
