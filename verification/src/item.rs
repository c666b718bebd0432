//! The record that the store keeps for one task.

use vstd::prelude::*;

verus! {

/// One task: its identifier, what is to be done, and whether it has been done.
#[derive(Debug)]
pub struct TodoItem {
    pub id: u32,
    pub description: String,
    pub done: bool,
}

/// The mathematical value of a [`TodoItem`]: the description is the sequence
/// of its characters.
pub struct TodoItemView {
    pub id: u32,
    pub description: Seq<char>,
    pub done: bool,
}

impl TodoItemView {
    /// The record of a task that has just been created: not yet done.
    pub open spec fn fresh(id: u32, description: Seq<char>) -> TodoItemView {
        TodoItemView { id, description, done: false }
    }

    /// This record with its flag replaced.
    pub open spec fn with_status(self, done: bool) -> TodoItemView {
        TodoItemView { done, ..self }
    }

    /// This record with its description replaced.
    pub open spec fn with_description(self, description: Seq<char>) -> TodoItemView {
        TodoItemView { description, ..self }
    }
}

impl View for TodoItem {
    type V = TodoItemView;

    open spec fn view(&self) -> TodoItemView {
        TodoItemView { id: self.id, description: self.description@, done: self.done }
    }
}

impl Clone for TodoItem {
    fn clone(&self) -> (copy: TodoItem)
        ensures
            copy == *self,
    {
        TodoItem { id: self.id, description: self.description.clone(), done: self.done }
    }
}

impl PartialEq for TodoItem {
    fn eq(&self, other: &TodoItem) -> (equal: bool) {
        self.id == other.id && self.description == other.description && self.done == other.done
    }
}

impl Eq for TodoItem {}

impl vstd::std_specs::cmp::PartialEqSpecImpl for TodoItem {
    open spec fn obeys_eq_spec() -> bool {
        true
    }

    open spec fn eq_spec(&self, other: &TodoItem) -> bool {
        self@ == other@
    }
}

impl TodoItem {
    /// The record of a task that has just been created under `id`.
    pub fn new(id: u32, description: String) -> (item: TodoItem)
        ensures
            item@ == TodoItemView::fresh(id, description@),
    {
        TodoItem { id, description, done: false }
    }

    /// This record with its flag replaced.
    pub fn with_status(self, done: bool) -> (item: TodoItem)
        ensures
            item@ == self@.with_status(done),
    {
        TodoItem { id: self.id, description: self.description, done }
    }

    /// This record with its description replaced.
    pub fn with_description(self, description: String) -> (item: TodoItem)
        ensures
            item@ == self@.with_description(description@),
    {
        TodoItem { id: self.id, description, done: self.done }
    }
}

} // verus!
