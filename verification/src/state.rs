//! The mathematical model of the store: what it holds, and what each
//! operation makes of it.

use vstd::prelude::*;
use crate::item::TodoItemView;

verus! {

/// What a store holds: its records by identifier, and the identifier that the
/// next task will get.
#[verifier::ext_equal]
pub struct TodoState {
    pub todos: Map<u32, TodoItemView>,
    pub next_id: u32,
}

/// One call of an operation that changes the store, with its arguments.
pub enum TodoOp {
    Create { description: Seq<char> },
    UpdateStatus { id: u32, done: bool },
    UpdateDescription { id: u32, description: Seq<char> },
    Delete { id: u32 },
}

/// How many of `ops` create a task.
pub open spec fn creations(ops: Seq<TodoOp>) -> nat
    decreases ops.len(),
{
    if ops.len() == 0 {
        0
    } else if ops.last() is Create {
        creations(ops.drop_last()) + 1
    } else {
        creations(ops.drop_last())
    }
}

/// The identifier issued after `id`: one more, except that the largest
/// identifier is followed by itself.
pub open spec fn following_id(id: u32) -> u32 {
    if id < u32::MAX {
        (id + 1) as u32
    } else {
        u32::MAX
    }
}

impl TodoState {
    /// The store that holds nothing and has issued no identifier.
    pub open spec fn empty() -> TodoState {
        TodoState { todos: Map::empty(), next_id: 0 }
    }

    /// Whether a record is kept under `id`.
    pub open spec fn has(self, id: u32) -> bool {
        self.todos.contains_key(id)
    }

    /// The record kept under `id`, if there is one.
    pub open spec fn read(self, id: u32) -> Option<TodoItemView> {
        if self.has(id) {
            Some(self.todos[id])
        } else {
            None
        }
    }

    /// The store after a task with `description` has been created: it is kept
    /// under the identifier that was next, and the one after it is next.
    pub open spec fn create(self, description: Seq<char>) -> TodoState {
        TodoState {
            todos: self.todos.insert(self.next_id, TodoItemView::fresh(self.next_id, description)),
            next_id: following_id(self.next_id),
        }
    }

    /// The store after the flag of `id` has been set to `done`; the same store
    /// where nothing is kept under `id`.
    pub open spec fn update_status(self, id: u32, done: bool) -> TodoState {
        if self.has(id) {
            TodoState { todos: self.todos.insert(id, self.todos[id].with_status(done)), ..self }
        } else {
            self
        }
    }

    /// The store after the description of `id` has been replaced; the same
    /// store where nothing is kept under `id`.
    pub open spec fn update_description(self, id: u32, description: Seq<char>) -> TodoState {
        if self.has(id) {
            TodoState {
                todos: self.todos.insert(id, self.todos[id].with_description(description)),
                ..self
            }
        } else {
            self
        }
    }

    /// The store after the record of `id` has been removed; the same store
    /// where nothing is kept under `id`.
    pub open spec fn delete(self, id: u32) -> TodoState {
        if self.has(id) {
            TodoState { todos: self.todos.remove(id), ..self }
        } else {
            self
        }
    }

    /// The store after `op`.
    pub open spec fn apply(self, op: TodoOp) -> TodoState {
        match op {
            TodoOp::Create { description } => self.create(description),
            TodoOp::UpdateStatus { id, done } => self.update_status(id, done),
            TodoOp::UpdateDescription { id, description } => self.update_description(
                id,
                description,
            ),
            TodoOp::Delete { id } => self.delete(id),
        }
    }

    /// The store after `ops`, one after another.
    pub open spec fn run(self, ops: Seq<TodoOp>) -> TodoState
        decreases ops.len(),
    {
        if ops.len() == 0 {
            self
        } else {
            self.run(ops.drop_last()).apply(ops.last())
        }
    }

    /// Every record is kept under its own identifier, and every identifier in
    /// use has been issued: it lies below the next one, unless the identifiers
    /// have run out.
    pub open spec fn wf(self) -> bool {
        forall|id: u32| #[trigger]
            self.has(id) ==> self.todos[id].id == id && (id < self.next_id || self.next_id
                == u32::MAX)
    }
}

} // verus!
