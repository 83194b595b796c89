use todomvc::list::{
    active_count, all_completed, copy_todos, filter_todos, has_completed, remove_todo, replace_todo,
};
use todomvc::todo::Todo;

fn todo(id: i64, title: &str, completed: bool) -> Todo {
    Todo { id, title: title.to_string(), completed, order: 0 }
}

fn sample() -> Vec<Todo> {
    vec![todo(1, "Buy milk", false), todo(2, "Walk dog", true), todo(3, "Read", false)]
}

fn ids(todos: &[Todo]) -> Vec<i64> {
    todos.iter().map(|t| t.id).collect()
}

#[test]
fn filter_active_shows_open_todos() {
    assert_eq!(ids(&filter_todos(&sample(), "active")), vec![1, 3]);
}

#[test]
fn filter_completed_shows_done_todos() {
    assert_eq!(ids(&filter_todos(&sample(), "completed")), vec![2]);
}

#[test]
fn filter_other_words_show_everything() {
    assert_eq!(ids(&filter_todos(&sample(), "")), vec![1, 2, 3]);
    assert_eq!(ids(&filter_todos(&sample(), "Active")), vec![1, 2, 3]);
    assert_eq!(ids(&filter_todos(&sample(), "whatever")), vec![1, 2, 3]);
}

#[test]
fn views_split_the_list() {
    let all = sample();
    let a = filter_todos(&all, "active").len();
    let c = filter_todos(&all, "completed").len();
    assert_eq!(a + c, all.len());
}

#[test]
fn view_of_view_changes_nothing() {
    let once = filter_todos(&sample(), "active");
    let twice = filter_todos(&once, "active");
    assert_eq!(once, twice);
}

#[test]
fn counts_over_the_list() {
    let all = sample();
    assert_eq!(active_count(&all), 2);
    assert!(has_completed(&all));
    assert!(!all_completed(&all));
    assert_eq!(active_count(&all), filter_todos(&all, "active").len());
}

#[test]
fn counts_over_an_empty_list() {
    let none: Vec<Todo> = Vec::new();
    assert_eq!(active_count(&none), 0);
    assert!(!has_completed(&none));
    assert!(!all_completed(&none));
}

#[test]
fn all_completed_when_every_todo_is_done() {
    let done = vec![todo(1, "A", true), todo(2, "B", true)];
    assert!(all_completed(&done));
    assert_eq!(active_count(&done), 0);
}

#[test]
fn replace_changes_only_the_first_match() {
    let mut all = sample();
    all.push(todo(2, "Second copy", false));
    replace_todo(&mut all, 2, todo(2, "Walk the dog", false));
    assert_eq!(all.len(), 4);
    assert_eq!(all[1].title, "Walk the dog");
    assert!(!all[1].completed);
    assert_eq!(all[3].title, "Second copy");
    assert_eq!(all[0], todo(1, "Buy milk", false));
}

#[test]
fn replace_of_a_missing_id_changes_nothing() {
    let mut all = sample();
    replace_todo(&mut all, 42, todo(42, "Nope", true));
    assert_eq!(all, sample());
}

#[test]
fn remove_drops_every_todo_of_the_id() {
    let mut all = sample();
    all.push(todo(1, "Again", true));
    remove_todo(&mut all, 1);
    assert_eq!(ids(&all), vec![2, 3]);
}

#[test]
fn remove_of_a_missing_id_changes_nothing() {
    let mut all = sample();
    remove_todo(&mut all, 99);
    assert_eq!(all, sample());
}

#[test]
fn copy_keeps_every_todo() {
    assert_eq!(copy_todos(&sample()), sample());
}
