use todomvc::item::{ItemCommand, TodoItemState};
use todomvc::todo::Todo;

fn row(title: &str, completed: bool) -> TodoItemState {
    TodoItemState::new(&Todo { id: 7, title: title.to_string(), completed, order: 0 })
}

#[test]
fn new_row_is_not_editing() {
    let s = row("Read", false);
    assert_eq!(s.id, 7);
    assert_eq!(s.title, "Read");
    assert_eq!(s.edit_text, "Read");
    assert!(!s.editing);
}

#[test]
fn toggle_flips_and_sends_the_flag() {
    let mut s = row("Read", false);
    match s.toggle() {
        ItemCommand::Update { id, update } => {
            assert_eq!(id, 7);
            assert_eq!(update.completed, Some(true));
            assert_eq!(update.title, None);
            assert_eq!(update.order, None);
        }
        _ => panic!("toggle must ask for an update"),
    }
    assert!(s.completed);
}

#[test]
fn toggle_twice_restores_the_flag() {
    let mut s = row("Read", true);
    s.toggle();
    match s.toggle() {
        ItemCommand::Update { update, .. } => assert_eq!(update.completed, Some(true)),
        _ => panic!("toggle must ask for an update"),
    }
    assert!(s.completed);
}

#[test]
fn destroy_asks_for_deletion() {
    let s = row("Read", false);
    assert!(matches!(s.destroy(), ItemCommand::Delete { id: 7 }));
}

#[test]
fn enter_saves_a_trimmed_new_title() {
    let mut s = row("Old title", false);
    s.start_editing();
    assert!(s.editing);
    s.edit_input("  New title \t".to_string());
    match s.key_down("Enter") {
        ItemCommand::Update { id, update } => {
            assert_eq!(id, 7);
            assert_eq!(update.title, Some("New title".to_string()));
            assert_eq!(update.completed, None);
        }
        _ => panic!("a changed title must be sent"),
    }
    assert_eq!(s.title, "New title");
    assert!(!s.editing);
}

#[test]
fn blur_after_enter_sends_nothing() {
    let mut s = row("Old", false);
    s.start_editing();
    s.edit_input("New".to_string());
    assert!(matches!(s.key_down("Enter"), ItemCommand::Update { .. }));
    assert!(matches!(s.blur(), ItemCommand::Nothing));
}

#[test]
fn blank_edit_deletes_the_todo() {
    let mut s = row("Old", false);
    s.start_editing();
    s.edit_input(" \u{3000} ".to_string());
    assert!(matches!(s.blur(), ItemCommand::Delete { id: 7 }));
    assert!(!s.editing);
}

#[test]
fn unchanged_title_sends_nothing() {
    let mut s = row("Same", false);
    s.start_editing();
    s.edit_input("  Same  ".to_string());
    assert!(matches!(s.key_down("Enter"), ItemCommand::Nothing));
    assert!(!s.editing);
    assert_eq!(s.title, "Same");
}

#[test]
fn escape_cancels_the_edit() {
    let mut s = row("Keep", false);
    s.start_editing();
    s.edit_input("Changed".to_string());
    assert!(matches!(s.key_down("Escape"), ItemCommand::Nothing));
    assert!(!s.editing);
    assert_eq!(s.edit_text, "Keep");
    assert_eq!(s.title, "Keep");
}

#[test]
fn other_keys_change_nothing() {
    let mut s = row("Keep", false);
    s.start_editing();
    s.edit_input("Changed".to_string());
    assert!(matches!(s.key_down("a"), ItemCommand::Nothing));
    assert!(s.editing);
    assert_eq!(s.edit_text, "Changed");
}

#[test]
fn saving_when_not_editing_does_nothing() {
    let mut s = row("Keep", false);
    s.edit_input("".to_string());
    assert!(matches!(s.save_edit(), ItemCommand::Nothing));
    assert_eq!(s.title, "Keep");
}

#[test]
fn saved_title_trims_to_itself() {
    let mut s = row("Old", false);
    s.start_editing();
    s.edit_input("\u{a0} Trimmed \u{2003}".to_string());
    assert!(matches!(s.key_down("Enter"), ItemCommand::Update { .. }));
    assert_eq!(s.title, "Trimmed");
    s.start_editing();
    assert!(matches!(s.key_down("Enter"), ItemCommand::Nothing));
    assert_eq!(s.title, "Trimmed");
}
