//! One row of the todo list: toggling, deleting and editing a todo in place.
//! Each step takes the row's state and an event and gives the next state and
//! the request, if any, that the client then sends to the backend.

use vstd::prelude::*;
use crate::todo::{Todo, UpdateTodo, UpdateView};
use crate::text::{same_text, trim_text, trimmed, is_whitespace, law_trimmed_ends};

verus! {

/// The state of one row of the list.
pub struct TodoItemState {
    pub id: i64,
    pub completed: bool,
    pub title: String,
    pub editing: bool,
    pub edit_text: String,
}

/// The state of a row as plain values.
pub struct ItemView {
    pub id: i64,
    pub completed: bool,
    pub title: Seq<char>,
    pub editing: bool,
    pub edit_text: Seq<char>,
}

impl View for TodoItemState {
    type V = ItemView;

    open spec fn view(&self) -> ItemView {
        ItemView {
            id: self.id,
            completed: self.completed,
            title: self.title@,
            editing: self.editing,
            edit_text: self.edit_text@,
        }
    }
}

/// What a row asks the backend to do after an event.
pub enum ItemCommand {
    Nothing,
    Update { id: i64, update: UpdateTodo },
    Delete { id: i64 },
}

/// A row's request as plain values.
pub enum CommandView {
    Nothing,
    Update { id: i64, update: UpdateView },
    Delete { id: i64 },
}

impl View for ItemCommand {
    type V = CommandView;

    open spec fn view(&self) -> CommandView {
        match self {
            ItemCommand::Nothing => CommandView::Nothing,
            ItemCommand::Update { id, update } => CommandView::Update { id: *id, update: update@ },
            ItemCommand::Delete { id } => CommandView::Delete { id: *id },
        }
    }
}

/// The row of a todo as it first shows: not being edited, with the edit box
/// holding the title.
pub open spec fn item_init(t: Todo) -> ItemView {
    ItemView { id: t.id, completed: t.completed, title: t.title@, editing: false, edit_text: t.title@ }
}

/// Clicking the checkbox flips the flag at once and asks the backend to store
/// the new flag, and nothing else.
pub open spec fn item_toggled(s: ItemView) -> (ItemView, CommandView) {
    (
        ItemView { completed: !s.completed, ..s },
        CommandView::Update {
            id: s.id,
            update: UpdateView { title: None, completed: Some(!s.completed), order: None },
        },
    )
}

/// A double click opens the edit box on the current title.
pub open spec fn item_editing_started(s: ItemView) -> ItemView {
    ItemView { editing: true, edit_text: s.title, ..s }
}

/// Typing replaces the text of the edit box.
pub open spec fn item_typed(s: ItemView, text: Seq<char>) -> ItemView {
    ItemView { edit_text: text, ..s }
}

/// Saving an edit: nothing while the row is not being edited; otherwise the
/// edit ends, and the trimmed text deletes the todo where it is empty,
/// renames it where it differs from the title, and does nothing where it is
/// the title.
pub open spec fn item_saved(s: ItemView) -> (ItemView, CommandView) {
    if !s.editing {
        (s, CommandView::Nothing)
    } else {
        let t = trimmed(s.edit_text);
        if t.len() == 0 {
            (ItemView { editing: false, ..s }, CommandView::Delete { id: s.id })
        } else if t != s.title {
            (
                ItemView { editing: false, title: t, ..s },
                CommandView::Update {
                    id: s.id,
                    update: UpdateView { title: Some(t), completed: None, order: None },
                },
            )
        } else {
            (ItemView { editing: false, ..s }, CommandView::Nothing)
        }
    }
}

/// A key in the edit box: Enter saves, Escape drops the edit and puts the
/// title back into the box, any other key does nothing.
pub open spec fn item_key(s: ItemView, key: Seq<char>) -> (ItemView, CommandView) {
    if key == "Enter"@ {
        item_saved(s)
    } else if key == "Escape"@ {
        (ItemView { editing: false, edit_text: s.title, ..s }, CommandView::Nothing)
    } else {
        (s, CommandView::Nothing)
    }
}

impl TodoItemState {
    /// The row of `todo`.
    pub fn new(todo: &Todo) -> (s: Self)
        ensures
            s@ == item_init(*todo),
    {
        TodoItemState {
            id: todo.id,
            completed: todo.completed,
            title: todo.title.clone(),
            editing: false,
            edit_text: todo.title.clone(),
        }
    }

    /// The checkbox was clicked.
    pub fn toggle(&mut self) -> (c: ItemCommand)
        ensures
            (final(self)@, c@) == item_toggled(old(self)@),
    {
        let new_completed = !self.completed;
        self.completed = new_completed;
        ItemCommand::Update {
            id: self.id,
            update: UpdateTodo { title: None, completed: Some(new_completed), order: None },
        }
    }

    /// The delete button was clicked: the row asks for its todo to go.
    pub fn destroy(&self) -> (c: ItemCommand)
        ensures
            c@ == (CommandView::Delete { id: self.id }),
    {
        ItemCommand::Delete { id: self.id }
    }

    /// The title was double-clicked.
    pub fn start_editing(&mut self)
        ensures
            final(self)@ == item_editing_started(old(self)@),
    {
        self.edit_text = self.title.clone();
        self.editing = true;
    }

    /// The edit box now holds `text`.
    pub fn edit_input(&mut self, text: String)
        ensures
            final(self)@ == item_typed(old(self)@, text@),
    {
        self.edit_text = text;
    }

    /// Ends an edit as Enter or leaving the box does.
    pub fn save_edit(&mut self) -> (c: ItemCommand)
        ensures
            (final(self)@, c@) == item_saved(old(self)@),
    {
        if !self.editing {
            return ItemCommand::Nothing;
        }
        self.editing = false;
        let new_title = trim_text(self.edit_text.as_str());
        if new_title.as_str().is_empty() {
            ItemCommand::Delete { id: self.id }
        } else if new_title != self.title {
            self.title = new_title.clone();
            ItemCommand::Update {
                id: self.id,
                update: UpdateTodo { title: Some(new_title), completed: None, order: None },
            }
        } else {
            ItemCommand::Nothing
        }
    }

    /// A key was pressed in the edit box.
    pub fn key_down(&mut self, key: &str) -> (c: ItemCommand)
        ensures
            (final(self)@, c@) == item_key(old(self)@, key@),
    {
        if same_text(key, "Enter") {
            self.save_edit()
        } else if same_text(key, "Escape") {
            self.editing = false;
            self.edit_text = self.title.clone();
            ItemCommand::Nothing
        } else {
            ItemCommand::Nothing
        }
    }

    /// The edit box lost the focus.
    pub fn blur(&mut self) -> (c: ItemCommand)
        ensures
            (final(self)@, c@) == item_saved(old(self)@),
    {
        self.save_edit()
    }
}

/// Clicking the checkbox twice gives the row back as it was, and the second
/// request stores the flag that the todo had at first.
pub proof fn law_toggle_twice(s: ItemView)
    ensures
        item_toggled(item_toggled(s).0).0 == s,
        item_toggled(item_toggled(s).0).1 == (CommandView::Update {
            id: s.id,
            update: UpdateView { title: None, completed: Some(s.completed), order: None },
        }),
{
}

/// Once an edit has been saved, saving again (Enter, then leaving the box)
/// changes nothing and sends nothing.
pub proof fn law_save_once(s: ItemView)
    ensures
        item_saved(item_saved(s).0) == (item_saved(s).0, CommandView::Nothing),
        !item_saved(s).0.editing,
{
}

/// Escape right after opening the edit box closes it with the title back in
/// it; on a fresh row that is the row as it was.
pub proof fn law_escape_cancels(s: ItemView, t: Todo)
    ensures
        item_key(item_editing_started(s), "Escape"@)
            == (ItemView { editing: false, edit_text: s.title, ..s }, CommandView::Nothing),
        item_key(item_editing_started(item_init(t)), "Escape"@) == (item_init(t), CommandView::Nothing),
{
    reveal_strlit("Enter");
    reveal_strlit("Escape");
    assert("Escape"@[1] != "Enter"@[1]);
}

/// A title that an edit sends is the title the row then shows, is not empty,
/// and neither starts nor ends with whitespace; an edit down to blanks asks
/// for the todo to be deleted.
pub proof fn law_saved_title(s: ItemView)
    ensures
        item_saved(s).1 matches CommandView::Update { id, update } ==> {
            &&& id == s.id
            &&& update.title matches Some(t)
            &&& t == item_saved(s).0.title
            &&& t.len() > 0
            &&& !is_whitespace(t[0])
            &&& !is_whitespace(t.last())
        },
        s.editing && trimmed(s.edit_text).len() == 0 ==> item_saved(s).1 == (CommandView::Delete { id: s.id }),
{
    law_trimmed_ends(s.edit_text);
}

/// Saving an edit compares the trimmed text with the title character by
/// character: a trimmed text that is not empty and differs from the title in
/// any way becomes the title and is sent as the new title, and only the
/// title itself sends nothing. Enter saves exactly as leaving the box does.
pub proof fn law_save_sends_changed_title(s: ItemView)
    ensures
        s.editing && trimmed(s.edit_text).len() > 0 && trimmed(s.edit_text) != s.title ==> item_saved(s) == (
            ItemView { editing: false, title: trimmed(s.edit_text), ..s },
            CommandView::Update {
                id: s.id,
                update: UpdateView { title: Some(trimmed(s.edit_text)), completed: None, order: None },
            },
        ),
        s.editing && trimmed(s.edit_text) == s.title && s.title.len() > 0 ==> item_saved(s) == (
            ItemView { editing: false, ..s },
            CommandView::Nothing,
        ),
        item_saved(s).1 is Nothing ==> !s.editing || trimmed(s.edit_text) == s.title,
        item_key(s, "Enter"@) == item_saved(s),
{
}

/// A click on the checkbox flips the flag, and the request stores exactly
/// the flag that the row then shows.
pub proof fn law_toggle_sends_shown_flag(s: ItemView)
    ensures
        item_toggled(s).0.completed != s.completed,
        item_toggled(s).0.title == s.title && item_toggled(s).0.id == s.id,
        item_toggled(s).1 == (CommandView::Update {
            id: s.id,
            update: UpdateView { title: None, completed: Some(item_toggled(s).0.completed), order: None },
        }),
{
}

/// Opening the edit box puts the title into it and touches nothing else,
/// typing changes only the box, and keys other than Enter and Escape change
/// nothing and send nothing.
pub proof fn law_edit_box(s: ItemView, text: Seq<char>, key: Seq<char>)
    ensures
        item_editing_started(s).editing,
        item_editing_started(s).edit_text == s.title,
        item_editing_started(s).title == s.title,
        item_editing_started(s).completed == s.completed,
        item_editing_started(s).id == s.id,
        item_typed(s, text).edit_text == text,
        item_typed(s, text).title == s.title,
        item_typed(s, text).editing == s.editing,
        item_typed(s, text).completed == s.completed,
        key != "Enter"@ && key != "Escape"@ ==> item_key(s, key) == (s, CommandView::Nothing),
{
}

} // verus!
