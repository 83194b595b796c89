//! What the HTTP backend decides around its database queries: the statement
//! that a partial update runs, how a missing row or a failed query is
//! answered, and the status that toggling all todos sets.

use vstd::prelude::*;
use crate::todo::{Todo, UpdateTodo, UpdateView};

verus! {

/// Declares `sqlx::Error`, the error of a database query, to Verus as an
/// opaque type: nothing is claimed of what a value of it holds.
#[verifier::external_type_specification]
#[verifier::external_body]
pub struct ExSqlxError(sqlx::Error);

/// Why a request failed: the todo it names does not exist, or the database
/// refused the query.
pub enum AppError {
    NotFound,
    Sqlx(sqlx::Error),
}

impl From<sqlx::Error> for AppError {
    fn from(err: sqlx::Error) -> (r: Self) {
        AppError::Sqlx(err)
    }
}

impl vstd::std_specs::convert::FromSpecImpl<sqlx::Error> for AppError {
    open spec fn obeys_from_spec() -> bool {
        true
    }

    open spec fn from_spec(v: sqlx::Error) -> AppError {
        AppError::Sqlx(v)
    }
}

/// The status and message that answer a failed request; the body is the
/// JSON object `{"error": message}`.
pub struct ErrorReply {
    pub status: u16,
    pub message: String,
}

/// The status of a failure: 404 for a missing todo, 500 for a database error.
pub open spec fn error_status(err: AppError) -> u16 {
    match err {
        AppError::NotFound => 404,
        AppError::Sqlx(_) => 500,
    }
}

/// The message of a failure.
pub open spec fn error_message(err: AppError) -> Seq<char> {
    match err {
        AppError::NotFound => "Not found"@,
        AppError::Sqlx(_) => "Internal server error"@,
    }
}

/// How a failed request is answered. A database error is answered without
/// its details, which the server only logs.
pub fn error_reply(err: &AppError) -> (r: ErrorReply)
    ensures
        r.status == error_status(*err),
        r.message@ == error_message(*err),
{
    match err {
        AppError::NotFound => ErrorReply { status: 404, message: "Not found".to_owned() },
        AppError::Sqlx(_) => ErrorReply { status: 500, message: "Internal server error".to_owned() },
    }
}

/// The endpoints of the API.
#[derive(Clone, Copy, Debug, PartialEq, Eq, Structural)]
pub enum Endpoint {
    ListTodos,
    CreateTodo,
    GetTodo,
    UpdateTodo,
    DeleteTodo,
    ToggleAll,
    ClearCompleted,
}

/// The status of a successful answer: 201 for a created todo, 204 for a
/// deleted one, 200 for the rest.
pub open spec fn success_status_of(e: Endpoint) -> u16 {
    match e {
        Endpoint::CreateTodo => 201,
        Endpoint::DeleteTodo => 204,
        _ => 200,
    }
}

/// The status of a successful answer of endpoint `e`.
pub fn success_status(e: Endpoint) -> (r: u16)
    ensures
        r == success_status_of(e),
{
    match e {
        Endpoint::CreateTodo => 201,
        Endpoint::DeleteTodo => 204,
        _ => 200,
    }
}

/// The todo that a query by id found, or `NotFound` where it found none.
pub fn require_found(row: Option<Todo>) -> (r: Result<Todo, AppError>)
    ensures
        match row {
            Some(t) => r == Ok::<Todo, AppError>(t),
            None => r matches Err(AppError::NotFound),
        },
{
    match row {
        Some(t) => Ok(t),
        None => Err(AppError::NotFound),
    }
}

/// The outcome of a delete by id that touched `rows_affected` rows:
/// `NotFound` where it touched none.
pub fn deletion_result(rows_affected: u64) -> (r: Result<(), AppError>)
    ensures
        r is Ok <==> rows_affected > 0,
        r matches Err(e) ==> e is NotFound,
{
    if rows_affected == 0 {
        Err(AppError::NotFound)
    } else {
        Ok(())
    }
}

/// The flag that toggling all todos gives every todo, from the store's
/// answer to whether every todo is completed (true where there are none):
/// done, unless every todo already is done, in which case open again.
pub fn toggle_all_status(all_completed: bool) -> (r: bool)
    ensures
        r == !all_completed,
{
    !all_completed
}

/// The fixed statements that the endpoints run.
#[derive(Clone, Copy, Debug, PartialEq, Eq, Structural)]
pub enum Query {
    /// Every todo, by order and then by id.
    ListAll,
    /// Stores a todo of the bound title and gives it back.
    Insert,
    /// The todo of the bound id.
    SelectById,
    /// Removes the todo of the bound id.
    DeleteById,
    /// Whether every todo is completed, true where there are none.
    AllCompleted,
    /// Gives every todo the bound flag.
    SetAllCompleted,
    /// Removes the completed todos.
    DeleteCompleted,
}

/// The text of a fixed statement.
pub open spec fn query_text(q: Query) -> Seq<char> {
    match q {
        Query::ListAll => "SELECT id, title, completed, \"order\" FROM todos ORDER BY \"order\", id"@,
        Query::Insert => "INSERT INTO todos (title) VALUES (?) RETURNING id, title, completed, \"order\""@,
        Query::SelectById => "SELECT id, title, completed, \"order\" FROM todos WHERE id = ?"@,
        Query::DeleteById => "DELETE FROM todos WHERE id = ?"@,
        Query::AllCompleted => "SELECT COALESCE(MIN(completed), 1) FROM todos"@,
        Query::SetAllCompleted => "UPDATE todos SET completed = ?"@,
        Query::DeleteCompleted => "DELETE FROM todos WHERE completed = 1"@,
    }
}

/// The text of a fixed statement.
pub fn query_sql(q: Query) -> (r: String)
    ensures
        r@ == query_text(q),
{
    match q {
        Query::ListAll => "SELECT id, title, completed, \"order\" FROM todos ORDER BY \"order\", id".to_owned(),
        Query::Insert => "INSERT INTO todos (title) VALUES (?) RETURNING id, title, completed, \"order\"".to_owned(),
        Query::SelectById => "SELECT id, title, completed, \"order\" FROM todos WHERE id = ?".to_owned(),
        Query::DeleteById => "DELETE FROM todos WHERE id = ?".to_owned(),
        Query::AllCompleted => "SELECT COALESCE(MIN(completed), 1) FROM todos".to_owned(),
        Query::SetAllCompleted => "UPDATE todos SET completed = ?".to_owned(),
        Query::DeleteCompleted => "DELETE FROM todos WHERE completed = 1".to_owned(),
    }
}

/// A value bound to a `?` of an SQL statement.
pub enum SqlValue {
    Text(String),
    Bool(bool),
    Int(i64),
}

/// A bound value as a plain value.
pub enum ValueView {
    Text(Seq<char>),
    Bool(bool),
    Int(i64),
}

impl View for SqlValue {
    type V = ValueView;

    open spec fn view(&self) -> ValueView {
        match self {
            SqlValue::Text(t) => ValueView::Text(t@),
            SqlValue::Bool(b) => ValueView::Bool(*b),
            SqlValue::Int(i) => ValueView::Int(*i),
        }
    }
}

/// An SQL statement with the values for its `?` placeholders, in order.
pub struct SqlStatement {
    pub sql: String,
    pub binds: Vec<SqlValue>,
}

/// The characters of each text.
pub open spec fn texts(parts: Seq<String>) -> Seq<Seq<char>> {
    parts.map_values(|p: String| p@)
}

/// The plain values of bound values.
pub open spec fn values(vs: Seq<SqlValue>) -> Seq<ValueView> {
    vs.map_values(|v: SqlValue| v@)
}

/// The parts with `sep` between each two of them.
pub open spec fn joined(parts: Seq<Seq<char>>, sep: Seq<char>) -> Seq<char>
    decreases parts.len(),
{
    if parts.len() == 0 {
        Seq::empty()
    } else if parts.len() == 1 {
        parts[0]
    } else {
        joined(parts.drop_last(), sep) + sep + parts.last()
    }
}

/// The assignments that a partial update makes: the title, the flag and the
/// order, each where it is given, in that order.
pub open spec fn update_clauses(u: UpdateView) -> Seq<Seq<char>> {
    (if u.title is Some { seq!["title = ?"@] } else { Seq::empty() })
        + (if u.completed is Some { seq!["completed = ?"@] } else { Seq::empty() })
        + (if u.order is Some { seq!["\"order\" = ?"@] } else { Seq::empty() })
}

/// The statement text of a partial update.
pub open spec fn update_sql(u: UpdateView) -> Seq<char> {
    "UPDATE todos SET "@ + joined(update_clauses(u), ", "@)
        + " WHERE id = ? RETURNING id, title, completed, \"order\""@
}

/// The values of a partial update: the given fields in the order of their
/// assignments, then the id.
pub open spec fn update_binds(u: UpdateView, id: i64) -> Seq<ValueView> {
    (match u.title { Some(t) => seq![ValueView::Text(t)], None => Seq::empty() })
        + (match u.completed { Some(c) => seq![ValueView::Bool(c)], None => Seq::empty() })
        + (match u.order { Some(o) => seq![ValueView::Int(o)], None => Seq::empty() })
        + seq![ValueView::Int(id)]
}

/// Whether an update gives no field at all.
pub open spec fn changes_nothing(u: UpdateView) -> bool {
    u.title is None && u.completed is None && u.order is None
}

/// The parts with `sep` between each two of them.
pub fn join_texts(parts: &Vec<String>, sep: &str) -> (r: String)
    ensures
        r@ == joined(texts(parts@), sep@),
{
    let mut r: String = String::new();
    let mut i: usize = 0;
    while i < parts.len()
        invariant
            0 <= i <= parts.len(),
            r@ == joined(texts(parts@).take(i as int), sep@),
        decreases parts.len() - i,
    {
        let ghost before = texts(parts@).take(i as int);
        let ghost after = texts(parts@).take(i + 1);
        assert(after.drop_last() =~= before);
        assert(after.last() == parts@[i as int]@);
        if i > 0 {
            r.append(sep);
        } else {
            assert(before.len() == 0);
        }
        r.append(parts[i].as_str());
        i += 1;
    }
    assert(texts(parts@).take(parts.len() as int) =~= texts(parts@));
    r
}

/// The statement that changes the todo of id `id` as `input` asks, and
/// gives the changed row back; none where `input` gives no field, in which
/// case the todo is read as it is.
pub fn update_statement(id: i64, input: &UpdateTodo) -> (r: Option<SqlStatement>)
    ensures
        r is None <==> changes_nothing(input@),
        r matches Some(st) ==> st.sql@ == update_sql(input@) && values(st.binds@) == update_binds(input@, id),
{
    let mut clauses: Vec<String> = Vec::new();
    let mut binds: Vec<SqlValue> = Vec::new();
    if let Some(title) = &input.title {
        clauses.push("title = ?".to_owned());
        binds.push(SqlValue::Text(title.clone()));
    }
    if let Some(completed) = input.completed {
        clauses.push("completed = ?".to_owned());
        binds.push(SqlValue::Bool(completed));
    }
    if let Some(order) = input.order {
        clauses.push("\"order\" = ?".to_owned());
        binds.push(SqlValue::Int(order));
    }
    if clauses.len() == 0 {
        return None;
    }
    binds.push(SqlValue::Int(id));
    assert(texts(clauses@) =~= update_clauses(input@));
    assert(values(binds@) =~= update_binds(input@, id));
    let mut sql: String = "UPDATE todos SET ".to_owned();
    let set_list = join_texts(&clauses, ", ");
    sql.append(set_list.as_str());
    sql.append(" WHERE id = ? RETURNING id, title, completed, \"order\"");
    Some(SqlStatement { sql, binds })
}

/// How often `c` occurs among the first `n` characters of `s`.
pub open spec fn occurrences_below(s: Seq<char>, c: char, n: nat) -> nat
    decreases n,
{
    if n == 0 {
        0
    } else {
        occurrences_below(s, c, (n - 1) as nat) + if s[n - 1] == c { 1nat } else { 0nat }
    }
}

/// How often `c` occurs in `s`.
pub open spec fn occurrences(s: Seq<char>, c: char) -> nat {
    occurrences_below(s, c, s.len())
}

/// Counting below `n` looks at the first `n` characters only.
proof fn lemma_occurrences_prefix(a: Seq<char>, b: Seq<char>, c: char, n: nat)
    requires
        n <= a.len(),
        n <= b.len(),
        forall|i: int| 0 <= i < n ==> a[i] == b[i],
    ensures
        occurrences_below(a, c, n) == occurrences_below(b, c, n),
    decreases n,
{
    if n > 0 {
        lemma_occurrences_prefix(a, b, c, (n - 1) as nat);
    }
}

/// Occurrences add up over a concatenation.
pub proof fn lemma_occurrences_concat(a: Seq<char>, b: Seq<char>, c: char)
    ensures
        occurrences(a + b, c) == occurrences(a, c) + occurrences(b, c),
{
    lemma_occurrences_concat_below(a, b, c, b.len());
}

proof fn lemma_occurrences_concat_below(a: Seq<char>, b: Seq<char>, c: char, k: nat)
    requires
        k <= b.len(),
    ensures
        occurrences_below(a + b, c, a.len() + k) == occurrences(a, c) + occurrences_below(b, c, k),
    decreases k,
{
    if k == 0 {
        lemma_occurrences_prefix(a + b, a, c, a.len());
    } else {
        lemma_occurrences_concat_below(a, b, c, (k - 1) as nat);
        assert((a + b)[a.len() + k - 1] == b[k - 1]);
    }
}

/// The occurrences of `c` in all the parts together.
pub open spec fn occurrences_in_parts(parts: Seq<Seq<char>>, c: char) -> nat
    decreases parts.len(),
{
    if parts.len() == 0 {
        0
    } else {
        occurrences_in_parts(parts.drop_last(), c) + occurrences(parts.last(), c)
    }
}

/// Joining with a separator free of `c` neither adds nor loses any `c`.
pub proof fn lemma_occurrences_joined(parts: Seq<Seq<char>>, sep: Seq<char>, c: char)
    requires
        occurrences(sep, c) == 0,
    ensures
        occurrences(joined(parts, sep), c) == occurrences_in_parts(parts, c),
    decreases parts.len(),
{
    if parts.len() == 1 {
        assert(parts.drop_last().len() == 0);
        assert(occurrences_in_parts(parts.drop_last(), c) == 0);
        assert(parts.last() == parts[0]);
    } else if parts.len() > 1 {
        lemma_occurrences_joined(parts.drop_last(), sep, c);
        lemma_occurrences_concat(joined(parts.drop_last(), sep), sep, c);
        lemma_occurrences_concat(joined(parts.drop_last(), sep) + sep, parts.last(), c);
    }
}

/// The occurrences over a concatenation of parts add up.
pub proof fn lemma_occurrences_in_parts_concat(a: Seq<Seq<char>>, b: Seq<Seq<char>>, c: char)
    ensures
        occurrences_in_parts(a + b, c) == occurrences_in_parts(a, c) + occurrences_in_parts(b, c),
    decreases b.len(),
{
    if b.len() == 0 {
        assert(a + b =~= a);
    } else {
        lemma_occurrences_in_parts_concat(a, b.drop_last(), c);
        assert((a + b).drop_last() =~= a + b.drop_last());
    }
}

/// The placeholders in the fixed pieces of the update statement.
proof fn lemma_update_pieces()
    ensures
        occurrences("UPDATE todos SET "@, '?') == 0,
        occurrences(", "@, '?') == 0,
        occurrences(" WHERE id = ? RETURNING id, title, completed, \"order\""@, '?') == 1,
        occurrences("title = ?"@, '?') == 1,
        occurrences("completed = ?"@, '?') == 1,
        occurrences("\"order\" = ?"@, '?') == 1,
{
    reveal_strlit("UPDATE todos SET ");
    reveal_strlit(", ");
    reveal_strlit(" WHERE id = ? RETURNING id, title, completed, \"order\"");
    reveal_strlit("title = ?");
    reveal_strlit("completed = ?");
    reveal_strlit("\"order\" = ?");
    reveal_with_fuel(occurrences_below, 60);
}

/// A partial update binds exactly one value to each placeholder of its
/// statement: one per given field and one for the id.
pub proof fn law_update_placeholders(u: UpdateView, id: i64)
    ensures
        occurrences(update_sql(u), '?') == update_binds(u, id).len(),
{
    lemma_update_pieces();
    let t = if u.title is Some { seq!["title = ?"@] } else { Seq::<Seq<char>>::empty() };
    let c = if u.completed is Some { seq!["completed = ?"@] } else { Seq::<Seq<char>>::empty() };
    let o = if u.order is Some { seq!["\"order\" = ?"@] } else { Seq::<Seq<char>>::empty() };
    reveal_with_fuel(occurrences_in_parts, 2);
    lemma_occurrences_in_parts_concat(t, c, '?');
    lemma_occurrences_in_parts_concat(t + c, o, '?');
    assert(seq!["title = ?"@].drop_last() =~= Seq::<Seq<char>>::empty());
    assert(seq!["completed = ?"@].drop_last() =~= Seq::<Seq<char>>::empty());
    assert(seq!["\"order\" = ?"@].drop_last() =~= Seq::<Seq<char>>::empty());
    let parts = update_clauses(u);
    lemma_occurrences_joined(parts, ", "@, '?');
    let head = "UPDATE todos SET "@;
    let tail = " WHERE id = ? RETURNING id, title, completed, \"order\""@;
    lemma_occurrences_concat(head, joined(parts, ", "@), '?');
    lemma_occurrences_concat(head + joined(parts, ", "@), tail, '?');
}

/// The values of a partial update line up with its assignments: there is
/// one value per assignment plus the id, which comes last; the value at the
/// position of `title = ?` is the given title, at `completed = ?` the given
/// flag and at `"order" = ?` the given order. The assignments come in the
/// order title, flag, order, each exactly where its field is given.
pub proof fn law_update_binds_follow_clauses(u: UpdateView, id: i64)
    ensures
        update_binds(u, id).len() == update_clauses(u).len() + 1,
        update_binds(u, id).last() == ValueView::Int(id),
        forall|i: int| 0 <= i < update_clauses(u).len() && update_clauses(u)[i] == "title = ?"@
            ==> u.title is Some && update_binds(u, id)[i] == ValueView::Text(u.title->0),
        forall|i: int| 0 <= i < update_clauses(u).len() && update_clauses(u)[i] == "completed = ?"@
            ==> u.completed is Some && update_binds(u, id)[i] == ValueView::Bool(u.completed->0),
        forall|i: int| 0 <= i < update_clauses(u).len() && update_clauses(u)[i] == "\"order\" = ?"@
            ==> u.order is Some && update_binds(u, id)[i] == ValueView::Int(u.order->0),
        forall|i: int| 0 <= i < update_clauses(u).len() ==> {
            ||| update_clauses(u)[i] == "title = ?"@
            ||| update_clauses(u)[i] == "completed = ?"@
            ||| update_clauses(u)[i] == "\"order\" = ?"@
        },
        update_clauses(u).len() == (if u.title is Some { 1int } else { 0int })
            + (if u.completed is Some { 1int } else { 0int }) + (if u.order is Some { 1int } else { 0int }),
        u.title is Some ==> update_clauses(u)[0] == "title = ?"@,
        u.completed is Some ==> update_clauses(u)[if u.title is Some { 1int } else { 0int }] == "completed = ?"@,
        u.order is Some ==> update_clauses(u)[update_clauses(u).len() - 1] == "\"order\" = ?"@,
{
    reveal_strlit("title = ?");
    reveal_strlit("completed = ?");
    reveal_strlit("\"order\" = ?");
    let a = "title = ?"@;
    let b = "completed = ?"@;
    let c = "\"order\" = ?"@;
    assert(a.len() != b.len() && a.len() != c.len() && b.len() != c.len());
    let cl = update_clauses(u);
    let bs = update_binds(u, id);
    assert(cl =~= update_clauses(u));
    if u.title is Some {
        if u.completed is Some {
            if u.order is Some {
                assert(cl =~= seq![a, b, c]);
                assert(bs =~= seq![ValueView::Text(u.title->0), ValueView::Bool(u.completed->0), ValueView::Int(u.order->0), ValueView::Int(id)]);
            } else {
                assert(cl =~= seq![a, b]);
                assert(bs =~= seq![ValueView::Text(u.title->0), ValueView::Bool(u.completed->0), ValueView::Int(id)]);
            }
        } else {
            if u.order is Some {
                assert(cl =~= seq![a, c]);
                assert(bs =~= seq![ValueView::Text(u.title->0), ValueView::Int(u.order->0), ValueView::Int(id)]);
            } else {
                assert(cl =~= seq![a]);
                assert(bs =~= seq![ValueView::Text(u.title->0), ValueView::Int(id)]);
            }
        }
    } else {
        if u.completed is Some {
            if u.order is Some {
                assert(cl =~= seq![b, c]);
                assert(bs =~= seq![ValueView::Bool(u.completed->0), ValueView::Int(u.order->0), ValueView::Int(id)]);
            } else {
                assert(cl =~= seq![b]);
                assert(bs =~= seq![ValueView::Bool(u.completed->0), ValueView::Int(id)]);
            }
        } else {
            if u.order is Some {
                assert(cl =~= seq![c]);
                assert(bs =~= seq![ValueView::Int(u.order->0), ValueView::Int(id)]);
            } else {
                assert(cl =~= Seq::<Seq<char>>::empty());
                assert(bs =~= seq![ValueView::Int(id)]);
            }
        }
    }
}

} // verus!
