use todomvc::footer::{items_left_label, link_selected, FilterLink};
use todomvc::todo::Todo;
use todomvc::todo_app::{filter_from_hash, TodoAppState};

fn todo(id: i64, title: &str, completed: bool) -> Todo {
    Todo { id, title: title.to_string(), completed, order: 0 }
}

#[test]
fn hash_gives_the_filter_word() {
    assert_eq!(filter_from_hash("#/active"), "active");
    assert_eq!(filter_from_hash("#/completed"), "completed");
    assert_eq!(filter_from_hash("#/"), "");
    assert_eq!(filter_from_hash(""), "");
    assert_eq!(filter_from_hash("#/#/active"), "active");
    assert_eq!(filter_from_hash("#active"), "#active");
}

#[test]
fn filter_word_is_stable() {
    let once = filter_from_hash("#/#/x");
    assert_eq!(filter_from_hash(&once), once);
}

#[test]
fn new_page_is_empty() {
    let s = TodoAppState::new("#/completed");
    assert!(s.todos.is_empty());
    assert_eq!(s.new_title, "");
    assert_eq!(s.filter, "completed");
    assert!(!s.has_todos());
    assert!(!s.all_completed());
}

#[test]
fn enter_creates_a_trimmed_title_and_clears_the_box() {
    let mut s = TodoAppState::new("");
    s.title_input("  Buy milk  ".to_string());
    assert_eq!(s.key_down("Enter"), Some("Buy milk".to_string()));
    assert_eq!(s.new_title, "");
}

#[test]
fn enter_on_a_blank_box_creates_nothing() {
    let mut s = TodoAppState::new("");
    s.title_input(" \n ".to_string());
    assert_eq!(s.key_down("Enter"), None);
    assert_eq!(s.new_title, " \n ");
}

#[test]
fn other_keys_create_nothing() {
    let mut s = TodoAppState::new("");
    s.title_input("Buy milk".to_string());
    assert_eq!(s.key_down("Tab"), None);
    assert_eq!(s.new_title, "Buy milk");
}

#[test]
fn replies_keep_the_list_up_to_date() {
    let mut s = TodoAppState::new("#/active");
    s.todos_loaded(vec![todo(1, "First", false), todo(2, "Second", true)]);
    s.todo_created(todo(3, "Third", false));
    assert_eq!(s.todos.len(), 3);
    assert_eq!(s.todos[2].title, "Third");
    let shown: Vec<i64> = s.visible_todos().iter().map(|t| t.id).collect();
    assert_eq!(shown, vec![1, 3]);
    s.todo_updated(1, todo(1, "First", true));
    assert!(s.todos[0].completed);
    s.todo_deleted(2);
    let left: Vec<i64> = s.todos.iter().map(|t| t.id).collect();
    assert_eq!(left, vec![1, 3]);
    s.hash_changed("#/completed");
    let shown: Vec<i64> = s.visible_todos().iter().map(|t| t.id).collect();
    assert_eq!(shown, vec![1]);
}

#[test]
fn toggle_all_box_follows_the_list() {
    let mut s = TodoAppState::new("");
    s.todos_loaded(vec![todo(1, "A", true), todo(2, "B", true)]);
    assert!(s.has_todos());
    assert!(s.all_completed());
    s.todos_loaded(vec![todo(1, "A", true), todo(2, "B", false)]);
    assert!(!s.all_completed());
}

#[test]
fn items_left_wording() {
    assert_eq!(items_left_label(1), " item left");
    assert_eq!(items_left_label(0), " items left");
    assert_eq!(items_left_label(2), " items left");
}

#[test]
fn one_link_is_selected() {
    assert!(link_selected("", FilterLink::All));
    assert!(!link_selected("", FilterLink::Active));
    assert!(link_selected("active", FilterLink::Active));
    assert!(!link_selected("active", FilterLink::All));
    assert!(link_selected("completed", FilterLink::Completed));
    assert!(!link_selected("completed", FilterLink::Active));
    assert!(!link_selected("other", FilterLink::All));
    assert!(!link_selected("other", FilterLink::Active));
    assert!(!link_selected("other", FilterLink::Completed));
}
