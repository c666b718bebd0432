//! What holds of every store, stated over the model and proved once for all.

use vstd::prelude::*;
use crate::item::TodoItemView;
use crate::state::{creations, TodoOp, TodoState};

verus! {

/// The empty store is well formed.
pub proof fn law_empty_is_well_formed()
    ensures
        TodoState::empty().wf(),
{
}

/// Creating a task keeps a store well formed.
pub proof fn law_create_keeps_well_formed(s: TodoState, description: Seq<char>)
    requires
        s.wf(),
    ensures
        s.create(description).wf(),
{
    let after = s.create(description);
    assert forall|id: u32| #[trigger] after.has(id) implies after.todos[id].id == id && (id
        < after.next_id || after.next_id == u32::MAX) by {
        if id != s.next_id {
            assert(s.has(id));
        }
    }
}

/// Setting a flag keeps a store well formed.
pub proof fn law_update_status_keeps_well_formed(s: TodoState, id: u32, done: bool)
    requires
        s.wf(),
    ensures
        s.update_status(id, done).wf(),
{
    let after = s.update_status(id, done);
    assert forall|other: u32| #[trigger] after.has(other) implies after.todos[other].id == other
        && (other < after.next_id || after.next_id == u32::MAX) by {
        assert(s.has(other));
    }
}

/// Replacing a description keeps a store well formed.
pub proof fn law_update_description_keeps_well_formed(
    s: TodoState,
    id: u32,
    description: Seq<char>,
)
    requires
        s.wf(),
    ensures
        s.update_description(id, description).wf(),
{
    let after = s.update_description(id, description);
    assert forall|other: u32| #[trigger] after.has(other) implies after.todos[other].id == other
        && (other < after.next_id || after.next_id == u32::MAX) by {
        assert(s.has(other));
    }
}

/// Removing a record keeps a store well formed.
pub proof fn law_delete_keeps_well_formed(s: TodoState, id: u32)
    requires
        s.wf(),
    ensures
        s.delete(id).wf(),
{
    let after = s.delete(id);
    assert forall|other: u32| #[trigger] after.has(other) implies after.todos[other].id == other
        && (other < after.next_id || after.next_id == u32::MAX) by {
        assert(s.has(other));
    }
}

/// While identifiers have not run out, the next one is not in use: a task
/// that is created takes the place of no other, whatever was removed before.
pub proof fn law_next_id_is_unused(s: TodoState)
    requires
        s.wf(),
        s.next_id < u32::MAX,
    ensures
        !s.has(s.next_id),
{
}

/// Whatever is done to a well-formed store, it stays well formed.
pub proof fn law_operations_keep_well_formed(s: TodoState, ops: Seq<TodoOp>)
    requires
        s.wf(),
    ensures
        s.run(ops).wf(),
    decreases ops.len(),
{
    if ops.len() > 0 {
        law_operations_keep_well_formed(s, ops.drop_last());
        let before = s.run(ops.drop_last());
        match ops.last() {
            TodoOp::Create { description } => law_create_keeps_well_formed(before, description),
            TodoOp::UpdateStatus { id, done } => law_update_status_keeps_well_formed(
                before,
                id,
                done,
            ),
            TodoOp::UpdateDescription { id, description } => {
                law_update_description_keeps_well_formed(before, id, description)
            },
            TodoOp::Delete { id } => law_delete_keeps_well_formed(before, id),
        }
    }
}

/// Every store that can be reached from the empty one is well formed.
pub proof fn law_reachable_stores_are_well_formed(ops: Seq<TodoOp>)
    ensures
        TodoState::empty().run(ops).wf(),
{
    law_operations_keep_well_formed(TodoState::empty(), ops);
}

/// The next identifier never goes down: creating a task moves it up by one
/// or leaves it at the largest identifier, and nothing else moves it.
pub proof fn law_next_id_never_decreases(s: TodoState, op: TodoOp)
    ensures
        s.apply(op).next_id >= s.next_id,
        !(op is Create) ==> s.apply(op).next_id == s.next_id,
        op is Create && s.next_id < u32::MAX ==> s.apply(op).next_id == s.next_id + 1,
{
}

/// Identifiers are issued consecutively: after `ops` the next identifier has
/// grown by the number of tasks created, whatever else was done in between,
/// or has stopped at the largest identifier.
pub proof fn law_identifiers_are_consecutive(s: TodoState, ops: Seq<TodoOp>)
    ensures
        s.run(ops).next_id == if s.next_id + creations(ops) <= u32::MAX {
            s.next_id + creations(ops)
        } else {
            u32::MAX as int
        },
    decreases ops.len(),
{
    if ops.len() > 0 {
        law_identifiers_are_consecutive(s, ops.drop_last());
    }
}

/// In a store that started empty, the task that is created after `n` others
/// gets the identifier `n`: identifiers start at 0 and go up by 1, until the
/// largest identifier has been reached.
pub proof fn law_identifiers_count_from_zero(ops: Seq<TodoOp>)
    requires
        creations(ops) <= u32::MAX,
    ensures
        TodoState::empty().run(ops).next_id == creations(ops),
{
    law_identifiers_are_consecutive(TodoState::empty(), ops);
}

/// Once the largest identifier has been reached, every further task gets it
/// again.
pub proof fn law_identifiers_saturate(s: TodoState, description: Seq<char>)
    requires
        s.next_id == u32::MAX,
    ensures
        s.create(description).next_id == u32::MAX,
{
}

/// Reading the identifier that a task was just created under gives that
/// task: its identifier, its description, and not done.
pub proof fn law_read_after_create(s: TodoState, description: Seq<char>)
    ensures
        s.create(description).read(s.next_id) == Some(
            TodoItemView::fresh(s.next_id, description),
        ),
{
}

/// Creating a task leaves every other record as it was.
pub proof fn law_create_keeps_others(s: TodoState, description: Seq<char>, other: u32)
    requires
        other != s.next_id,
    ensures
        s.create(description).read(other) == s.read(other),
{
}

/// Setting the flag of an existing task changes that flag and nothing else:
/// reading the task gives the new flag with the old identifier and
/// description, every other record and the next identifier are as before.
pub proof fn law_update_status_sets_flag(s: TodoState, id: u32, done: bool)
    requires
        s.has(id),
    ensures
        s.update_status(id, done).read(id) == Some(s.todos[id].with_status(done)),
        s.update_status(id, done).todos[id].done == done,
        s.update_status(id, done).todos[id].description == s.todos[id].description,
        s.update_status(id, done).todos[id].id == s.todos[id].id,
        forall|other: u32|
            other != id ==> #[trigger] s.update_status(id, done).read(other) == s.read(other),
        s.update_status(id, done).next_id == s.next_id,
{
}

/// Replacing the description of an existing task changes that description
/// and nothing else.
pub proof fn law_update_description_sets_text(s: TodoState, id: u32, description: Seq<char>)
    requires
        s.has(id),
    ensures
        s.update_description(id, description).read(id) == Some(
            s.todos[id].with_description(description),
        ),
        s.update_description(id, description).todos[id].description == description,
        s.update_description(id, description).todos[id].done == s.todos[id].done,
        s.update_description(id, description).todos[id].id == s.todos[id].id,
        forall|other: u32|
            other != id ==> #[trigger] s.update_description(id, description).read(other)
                == s.read(other),
        s.update_description(id, description).next_id == s.next_id,
{
}

/// An operation on an identifier under which nothing is kept leaves the store
/// as it was.
pub proof fn law_absent_id_changes_nothing(
    s: TodoState,
    id: u32,
    done: bool,
    description: Seq<char>,
)
    requires
        !s.has(id),
    ensures
        s.update_status(id, done) == s,
        s.update_description(id, description) == s,
        s.delete(id) == s,
{
}

/// After a record has been removed, reading its identifier gives nothing, and
/// removing it once more changes nothing. Every other record and the next
/// identifier are as before.
pub proof fn law_delete_removes(s: TodoState, id: u32)
    ensures
        s.delete(id).read(id) is None,
        !s.delete(id).has(id),
        s.delete(id).delete(id) == s.delete(id),
        forall|other: u32| other != id ==> #[trigger] s.delete(id).read(other) == s.read(other),
        s.delete(id).next_id == s.next_id,
{
}

/// Setting a flag twice is the same as setting it once: the task is still
/// there for the second time, and the second time changes nothing.
pub proof fn law_update_status_is_idempotent(s: TodoState, id: u32, done: bool)
    ensures
        s.update_status(id, done).has(id) == s.has(id),
        s.update_status(id, done).update_status(id, done) == s.update_status(id, done),
{
    let once = s.update_status(id, done);
    assert(once.update_status(id, done).todos =~= once.todos);
}

} // verus!
