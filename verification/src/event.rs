//! The notifications that successful mutations of the store give rise to.

use vstd::prelude::*;

verus! {

/// A task was created under `id` with `description`.
#[derive(Debug)]
pub struct TodoCreated {
    pub id: u32,
    pub description: String,
}

/// The flag of the task `id` was set to `done`.
#[derive(Clone, Copy, Debug, PartialEq, Eq, Structural)]
pub struct TodoStatusUpdated {
    pub id: u32,
    pub done: bool,
}

/// The description of the task `id` was replaced by `description`.
#[derive(Debug)]
pub struct TodoDescriptionUpdated {
    pub id: u32,
    pub description: String,
}

/// The task `id` was removed.
#[derive(Clone, Copy, Debug, PartialEq, Eq, Structural)]
pub struct TodoDeleted {
    pub id: u32,
}

/// Any one of the four notifications, as the store's log holds them.
#[derive(Debug)]
pub enum TodoEvent {
    Created(TodoCreated),
    StatusUpdated(TodoStatusUpdated),
    DescriptionUpdated(TodoDescriptionUpdated),
    Deleted(TodoDeleted),
}

/// The mathematical value of a notification. All four notification types, and
/// [`TodoEvent`] itself, are viewed as this one type, so that a log is a
/// sequence of such values.
pub enum TodoEventView {
    Created { id: u32, description: Seq<char> },
    StatusUpdated { id: u32, done: bool },
    DescriptionUpdated { id: u32, description: Seq<char> },
    Deleted { id: u32 },
}

impl TodoEventView {
    /// The identifier of the task that the notification is about.
    pub open spec fn id(self) -> u32 {
        match self {
            TodoEventView::Created { id, .. } => id,
            TodoEventView::StatusUpdated { id, .. } => id,
            TodoEventView::DescriptionUpdated { id, .. } => id,
            TodoEventView::Deleted { id } => id,
        }
    }
}

impl TodoEvent {
    /// The identifier of the task that the notification is about: every
    /// notification carries one, so that a reader of the log can pick out
    /// those of one task.
    pub fn id(&self) -> (id: u32)
        ensures
            id == self@.id(),
    {
        match self {
            TodoEvent::Created(event) => event.id,
            TodoEvent::StatusUpdated(event) => event.id,
            TodoEvent::DescriptionUpdated(event) => event.id,
            TodoEvent::Deleted(event) => event.id,
        }
    }
}

impl View for TodoCreated {
    type V = TodoEventView;

    open spec fn view(&self) -> TodoEventView {
        TodoEventView::Created { id: self.id, description: self.description@ }
    }
}

impl View for TodoStatusUpdated {
    type V = TodoEventView;

    open spec fn view(&self) -> TodoEventView {
        TodoEventView::StatusUpdated { id: self.id, done: self.done }
    }
}

impl View for TodoDescriptionUpdated {
    type V = TodoEventView;

    open spec fn view(&self) -> TodoEventView {
        TodoEventView::DescriptionUpdated { id: self.id, description: self.description@ }
    }
}

impl View for TodoDeleted {
    type V = TodoEventView;

    open spec fn view(&self) -> TodoEventView {
        TodoEventView::Deleted { id: self.id }
    }
}

impl View for TodoEvent {
    type V = TodoEventView;

    open spec fn view(&self) -> TodoEventView {
        match self {
            TodoEvent::Created(e) => e@,
            TodoEvent::StatusUpdated(e) => e@,
            TodoEvent::DescriptionUpdated(e) => e@,
            TodoEvent::Deleted(e) => e@,
        }
    }
}

/// The values of the notifications in `events`, in the same order.
pub open spec fn event_views(events: Seq<TodoEvent>) -> Seq<TodoEventView> {
    events.map_values(|event: TodoEvent| event@)
}

impl PartialEq for TodoCreated {
    fn eq(&self, other: &TodoCreated) -> (equal: bool) {
        self.id == other.id && self.description == other.description
    }
}

impl Eq for TodoCreated {}

impl vstd::std_specs::cmp::PartialEqSpecImpl for TodoCreated {
    open spec fn obeys_eq_spec() -> bool {
        true
    }

    open spec fn eq_spec(&self, other: &TodoCreated) -> bool {
        self@ == other@
    }
}

impl PartialEq for TodoDescriptionUpdated {
    fn eq(&self, other: &TodoDescriptionUpdated) -> (equal: bool) {
        self.id == other.id && self.description == other.description
    }
}

impl Eq for TodoDescriptionUpdated {}

impl vstd::std_specs::cmp::PartialEqSpecImpl for TodoDescriptionUpdated {
    open spec fn obeys_eq_spec() -> bool {
        true
    }

    open spec fn eq_spec(&self, other: &TodoDescriptionUpdated) -> bool {
        self@ == other@
    }
}

impl PartialEq for TodoEvent {
    fn eq(&self, other: &TodoEvent) -> (equal: bool) {
        match (self, other) {
            (TodoEvent::Created(a), TodoEvent::Created(b)) => a == b,
            (TodoEvent::StatusUpdated(a), TodoEvent::StatusUpdated(b)) => a == b,
            (TodoEvent::DescriptionUpdated(a), TodoEvent::DescriptionUpdated(b)) => a == b,
            (TodoEvent::Deleted(a), TodoEvent::Deleted(b)) => a == b,
            _ => false,
        }
    }
}

impl Eq for TodoEvent {}

impl vstd::std_specs::cmp::PartialEqSpecImpl for TodoEvent {
    open spec fn obeys_eq_spec() -> bool {
        true
    }

    open spec fn eq_spec(&self, other: &TodoEvent) -> bool {
        self@ == other@
    }
}

} // verus!
