//! What each operation decides, apart from where the records are kept.
//!
//! An operation looks at one record at most, the one under its identifier.
//! The functions here take what was found there and say what is to be kept
//! and which notification is to go out. [`crate::Todo`] carries their
//! decisions out on records in memory; a host that keeps the records
//! elsewhere can carry them out there.

use vstd::prelude::*;
use crate::event::{
    TodoCreated, TodoDeleted, TodoDescriptionUpdated, TodoEventView, TodoStatusUpdated,
};
use crate::item::{TodoItem, TodoItemView};
use crate::state::following_id;

verus! {

/// What creating a task comes to: the record to keep under its identifier,
/// the identifier that is next afterwards, and the notification.
pub struct Creation {
    pub item: TodoItem,
    pub next_id: u32,
    pub event: TodoCreated,
}

/// The identifier issued after `id`: one more, except that the largest
/// identifier is followed by itself.
pub fn next_identifier(id: u32) -> (next: u32)
    ensures
        next == following_id(id),
{
    id.saturating_add(1)
}

/// Creating a task with `description` where `next_id` is the next
/// identifier: the task gets `next_id` and is not done.
pub fn creation(next_id: u32, description: String) -> (step: Creation)
    ensures
        step.item@ == TodoItemView::fresh(next_id, description@),
        step.next_id == following_id(next_id),
        step.event@ == (TodoEventView::Created { id: next_id, description: description@ }),
{
    Creation {
        item: TodoItem::new(next_id, description.clone()),
        next_id: next_identifier(next_id),
        event: TodoCreated { id: next_id, description },
    }
}

/// Setting the flag of the task `id` to `done`, where `found` is what is kept
/// under `id`: the record to keep in its place and the notification, or
/// nothing where nothing was found.
pub fn status_update(found: Option<TodoItem>, id: u32, done: bool) -> (step: Option<
    (TodoItem, TodoStatusUpdated),
>)
    ensures
        step is Some == found is Some,
        step matches Some((item, event)) ==> item@ == found->0@.with_status(done) && event@ == (
        TodoEventView::StatusUpdated { id, done }),
{
    match found {
        Some(item) => Some((item.with_status(done), TodoStatusUpdated { id, done })),
        None => None,
    }
}

/// Replacing the description of the task `id` by `description`, where
/// `found` is what is kept under `id`: the record to keep in its place and
/// the notification, or nothing where nothing was found.
pub fn description_update(found: Option<TodoItem>, id: u32, description: String) -> (step: Option<
    (TodoItem, TodoDescriptionUpdated),
>)
    ensures
        step is Some == found is Some,
        step matches Some((item, event)) ==> item@ == found->0@.with_description(description@)
            && event@ == (TodoEventView::DescriptionUpdated { id, description: description@ }),
{
    match found {
        Some(item) => Some(
            (
                item.with_description(description.clone()),
                TodoDescriptionUpdated { id, description },
            ),
        ),
        None => None,
    }
}

/// Removing the task `id`, where `found` says whether anything is kept under
/// `id`: the notification where the record is to go, nothing where there was
/// none.
pub fn deletion(found: bool, id: u32) -> (step: Option<TodoDeleted>)
    ensures
        step is Some == found,
        step matches Some(event) ==> event@ == (TodoEventView::Deleted { id }),
{
    if found {
        Some(TodoDeleted { id })
    } else {
        None
    }
}

} // verus!
