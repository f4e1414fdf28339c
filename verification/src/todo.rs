//! A single checklist item: its text and whether it has been completed.

use vstd::prelude::*;

verus! {

/// One entry of the checklist. Items have no identity beyond their position
/// in the list; a new item starts out not completed.
#[derive(Clone, Debug)]
pub struct TodoItem {
    pub text: String,
    pub completed: bool,
}

impl View for TodoItem {
    type V = (Seq<char>, bool);

    open spec fn view(&self) -> (Seq<char>, bool) {
        (self.text@, self.completed)
    }
}

/// The sequence of `(text, completed)` pairs that a sequence of items stands
/// for; list operations and the persistence codec are specified over it.
pub open spec fn items_view(items: Seq<TodoItem>) -> Seq<(Seq<char>, bool)> {
    items.map_values(|it: TodoItem| it@)
}

} // verus!
