# todomvc

A TodoMVC application (Axum + SQLite backend, Leptos client) whose logic is
verified with Verus.

- `src/` — the verified library:
  - `todo.rs`: the `Todo`, `CreateTodo` and `UpdateTodo` records;
  - `text.rs`: Unicode whitespace trimming and prefix stripping;
  - `list.rs`: the client's list — filter views, counts, replacing and
    removing todos by id;
  - `item.rs`: the state machine of one row (toggle, delete, inline edit);
  - `todo_app.rs`: the state machine of the page (new-todo box, hash filter,
    backend replies);
  - `footer.rs`: the items-left wording and the selected filter link;
  - `backend.rs`: the API's statements, the partial-update statement
    builder, error and success statuses.
- `app/` — the server (`main.rs`, `handlers.rs`, `routes.rs`, `db.rs`) and
  the browser client glue (`frontend/`), which run the I/O and hand plain
  values to the library.
- `tests/` — tests of the library on concrete values.
