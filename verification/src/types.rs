//! Response and record shapes for the to-do service.

use vstd::prelude::*;

verus! {

/// One stored to-do entry: its identifier and its text.
#[derive(Debug)]
pub struct ToDoItem {
    pub id: i64,
    pub item: String,
}

impl View for ToDoItem {
    type V = (i64, Seq<char>);

    open spec fn view(&self) -> (i64, Seq<char>) {
        (self.id, self.item@)
    }
}

/// The full listing returned to a client: every stored item, in storage order.
#[derive(Debug)]
pub struct ToDoList {
    pub items: Vec<ToDoItem>,
}

impl View for ToDoList {
    type V = Seq<(i64, Seq<char>)>;

    open spec fn view(&self) -> Seq<(i64, Seq<char>)> {
        self.items@.map_values(|it: ToDoItem| it@)
    }
}

/// A transient response value carrying a human-readable outcome string.
#[derive(Debug)]
pub struct StatusMessage {
    pub message: String,
}

impl View for StatusMessage {
    type V = Seq<char>;

    open spec fn view(&self) -> Seq<char> {
        self.message@
    }
}

} // verus!
