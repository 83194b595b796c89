use todomvc::backend::{
    deletion_result, error_reply, join_texts, query_sql, require_found, success_status,
    toggle_all_status, update_statement, AppError, Endpoint, Query, SqlValue,
};
use todomvc::todo::{Todo, UpdateTodo};

fn todo(id: i64, title: &str) -> Todo {
    Todo { id, title: title.to_string(), completed: false, order: 0 }
}

#[test]
fn update_of_the_title_alone() {
    let u = UpdateTodo { title: Some("New title".to_string()), completed: None, order: None };
    let st = update_statement(5, &u).expect("a field is given");
    assert_eq!(
        st.sql,
        r#"UPDATE todos SET title = ? WHERE id = ? RETURNING id, title, completed, "order""#
    );
    assert_eq!(st.binds.len(), 2);
    assert!(matches!(&st.binds[0], SqlValue::Text(t) if t == "New title"));
    assert!(matches!(st.binds[1], SqlValue::Int(5)));
}

#[test]
fn update_of_the_flag_alone() {
    let u = UpdateTodo { title: None, completed: Some(true), order: None };
    let st = update_statement(1, &u).expect("a field is given");
    assert_eq!(
        st.sql,
        r#"UPDATE todos SET completed = ? WHERE id = ? RETURNING id, title, completed, "order""#
    );
    assert!(matches!(st.binds[0], SqlValue::Bool(true)));
    assert!(matches!(st.binds[1], SqlValue::Int(1)));
}

#[test]
fn update_of_every_field() {
    let u = UpdateTodo { title: Some("T".to_string()), completed: Some(false), order: Some(3) };
    let st = update_statement(9, &u).expect("fields are given");
    assert_eq!(
        st.sql,
        r#"UPDATE todos SET title = ?, completed = ?, "order" = ? WHERE id = ? RETURNING id, title, completed, "order""#
    );
    assert_eq!(st.binds.len(), 4);
    assert_eq!(st.sql.matches('?').count(), st.binds.len());
    assert!(matches!(st.binds[2], SqlValue::Int(3)));
    assert!(matches!(st.binds[3], SqlValue::Int(9)));
}

#[test]
fn update_of_flag_and_order() {
    let u = UpdateTodo { title: None, completed: Some(true), order: Some(-2) };
    let st = update_statement(4, &u).expect("fields are given");
    assert_eq!(
        st.sql,
        r#"UPDATE todos SET completed = ?, "order" = ? WHERE id = ? RETURNING id, title, completed, "order""#
    );
    assert_eq!(st.sql.matches('?').count(), st.binds.len());
}

#[test]
fn update_of_nothing_has_no_statement() {
    let u = UpdateTodo { title: None, completed: None, order: None };
    assert!(update_statement(1, &u).is_none());
}

#[test]
fn join_puts_the_separator_between_parts() {
    let parts = vec!["a".to_string(), "b".to_string(), "c".to_string()];
    assert_eq!(join_texts(&parts, ", "), "a, b, c");
    assert_eq!(join_texts(&Vec::new(), ", "), "");
    assert_eq!(join_texts(&vec!["x".to_string()], ", "), "x");
}

#[test]
fn missing_row_is_not_found() {
    assert!(matches!(require_found(None), Err(AppError::NotFound)));
    match require_found(Some(todo(3, "Get me"))) {
        Ok(t) => {
            assert_eq!(t.id, 3);
            assert_eq!(t.title, "Get me");
        }
        Err(_) => panic!("a found row is handed back"),
    }
}

#[test]
fn deleting_nothing_is_not_found() {
    assert!(matches!(deletion_result(0), Err(AppError::NotFound)));
    assert!(deletion_result(1).is_ok());
}

#[test]
fn error_replies() {
    let r = error_reply(&AppError::NotFound);
    assert_eq!(r.status, 404);
    assert_eq!(r.message, "Not found");
    let db: AppError = sqlx::Error::RowNotFound.into();
    assert!(matches!(db, AppError::Sqlx(_)));
    let r = error_reply(&db);
    assert_eq!(r.status, 500);
    assert_eq!(r.message, "Internal server error");
}

#[test]
fn success_statuses() {
    assert_eq!(success_status(Endpoint::CreateTodo), 201);
    assert_eq!(success_status(Endpoint::DeleteTodo), 204);
    assert_eq!(success_status(Endpoint::ListTodos), 200);
    assert_eq!(success_status(Endpoint::GetTodo), 200);
    assert_eq!(success_status(Endpoint::UpdateTodo), 200);
    assert_eq!(success_status(Endpoint::ToggleAll), 200);
    assert_eq!(success_status(Endpoint::ClearCompleted), 200);
}

#[test]
fn toggle_all_marks_completed_unless_all_done() {
    assert!(toggle_all_status(false));
    assert!(!toggle_all_status(true));
    assert!(toggle_all_status(toggle_all_status(true)));
}

#[test]
fn fixed_queries() {
    assert_eq!(
        query_sql(Query::ListAll),
        r#"SELECT id, title, completed, "order" FROM todos ORDER BY "order", id"#
    );
    assert_eq!(
        query_sql(Query::Insert),
        r#"INSERT INTO todos (title) VALUES (?) RETURNING id, title, completed, "order""#
    );
    assert_eq!(
        query_sql(Query::SelectById),
        r#"SELECT id, title, completed, "order" FROM todos WHERE id = ?"#
    );
    assert_eq!(query_sql(Query::DeleteById), "DELETE FROM todos WHERE id = ?");
    assert_eq!(query_sql(Query::AllCompleted), "SELECT COALESCE(MIN(completed), 1) FROM todos");
    assert_eq!(query_sql(Query::SetAllCompleted), "UPDATE todos SET completed = ?");
    assert_eq!(query_sql(Query::DeleteCompleted), "DELETE FROM todos WHERE completed = 1");
}
