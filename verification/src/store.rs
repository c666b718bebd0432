//! The store itself: records in memory, and the log of notifications.

use std::collections::HashMap;
use vstd::prelude::*;
use crate::event::{event_views, TodoEvent, TodoEventView};
use crate::item::TodoItem;
use crate::laws::{
    law_create_keeps_well_formed, law_delete_keeps_well_formed,
    law_update_description_keeps_well_formed, law_update_status_keeps_well_formed,
};
use crate::state::TodoState;
use crate::step::{creation, deletion, description_update, status_update};

verus! {

broadcast use vstd::std_specs::hash::group_hash_axioms;

/// A list of tasks, each kept under an identifier that the store has issued,
/// together with the log of the notifications that have not been taken yet.
pub struct Todo {
    todos: HashMap<u32, TodoItem>,
    next_id: u32,
    events: Vec<TodoEvent>,
}

impl View for Todo {
    type V = TodoState;

    closed spec fn view(&self) -> TodoState {
        TodoState { todos: self.todos@.map_values(|item: TodoItem| item@), next_id: self.next_id }
    }
}

impl Todo {
    /// The notifications that have been emitted and not taken yet, oldest
    /// first.
    pub closed spec fn log(&self) -> Seq<TodoEventView> {
        event_views(self.events@)
    }

    /// An empty store: no record, no notification, and 0 as the first
    /// identifier.
    pub fn new() -> (store: Todo)
        ensures
            store@ == TodoState::empty(),
            store@.wf(),
            store.log() == Seq::<TodoEventView>::empty(),
    {
        let store = Todo { todos: HashMap::new(), next_id: 0, events: Vec::new() };
        assert(store@.todos =~= Map::empty());
        store
    }

    /// Creates a task with `description` and returns its identifier, the one
    /// that was next. Always succeeds, whatever the text, and emits `Created`.
    ///
    /// Identifiers do not wrap around. Once the largest one has been issued it
    /// is issued again, and the task created then takes the place of the one
    /// kept under it.
    pub fn create(&mut self, description: String) -> (id: u32)
        ensures
            id == old(self)@.next_id,
            final(self)@ == old(self)@.create(description@),
            final(self).log() == old(self).log().push(
                (TodoEventView::Created { id, description: description@ }),
            ),
            old(self)@.wf() ==> final(self)@.wf(),
    {
        let id = self.next_id;
        let step = creation(id, description);
        self.todos.insert(id, step.item);
        self.next_id = step.next_id;
        self.events.push(TodoEvent::Created(step.event));
        assert(self@.todos =~= old(self)@.create(description@).todos);
        assert(self.log() =~= old(self).log().push(
            (TodoEventView::Created { id, description: description@ }),
        ));
        proof {
            if old(self)@.wf() {
                law_create_keeps_well_formed(old(self)@, description@);
            }
        }
        id
    }

    /// A copy of the record kept under `id`, or nothing where there is none.
    /// The store is left as it was.
    pub fn read(&self, id: u32) -> (found: Option<TodoItem>)
        ensures
            match found {
                Some(item) => self@.read(id) == Some(item@),
                None => self@.read(id) is None,
            },
    {
        match self.todos.get(&id) {
            Some(item) => Some(item.clone()),
            None => None,
        }
    }

    /// Sets the flag of the task `id` to `done`, emits `StatusUpdated` and
    /// returns `true`. Where nothing is kept under `id`, nothing is changed
    /// or emitted, and `false` is returned.
    pub fn update_status(&mut self, id: u32, done: bool) -> (ok: bool)
        ensures
            ok == old(self)@.has(id),
            final(self)@ == old(self)@.update_status(id, done),
            final(self).log() == if ok {
                old(self).log().push((TodoEventView::StatusUpdated { id, done }))
            } else {
                old(self).log()
            },
            old(self)@.wf() ==> final(self)@.wf(),
    {
        let (item, event) = match status_update(self.read(id), id, done) {
            Some(step) => step,
            None => {
                return false;
            },
        };
        self.todos.insert(id, item);
        self.events.push(TodoEvent::StatusUpdated(event));
        assert(self@.todos =~= old(self)@.update_status(id, done).todos);
        assert(self.log() =~= old(self).log().push(
            (TodoEventView::StatusUpdated { id, done }),
        ));
        proof {
            if old(self)@.wf() {
                law_update_status_keeps_well_formed(old(self)@, id, done);
            }
        }
        true
    }

    /// Replaces the description of the task `id` by `description`, emits
    /// `DescriptionUpdated` and returns `true`. Where nothing is kept under
    /// `id`, nothing is changed or emitted, and `false` is returned.
    pub fn update_description(&mut self, id: u32, description: String) -> (ok: bool)
        ensures
            ok == old(self)@.has(id),
            final(self)@ == old(self)@.update_description(id, description@),
            final(self).log() == if ok {
                old(self).log().push(
                    (TodoEventView::DescriptionUpdated { id, description: description@ }),
                )
            } else {
                old(self).log()
            },
            old(self)@.wf() ==> final(self)@.wf(),
    {
        let (item, event) = match description_update(self.read(id), id, description) {
            Some(step) => step,
            None => {
                return false;
            },
        };
        self.todos.insert(id, item);
        self.events.push(TodoEvent::DescriptionUpdated(event));
        assert(self@.todos =~= old(self)@.update_description(id, description@).todos);
        assert(self.log() =~= old(self).log().push(
            (TodoEventView::DescriptionUpdated { id, description: description@ }),
        ));
        proof {
            if old(self)@.wf() {
                law_update_description_keeps_well_formed(old(self)@, id, description@);
            }
        }
        true
    }

    /// Removes the record kept under `id`, emits `Deleted` and returns `true`.
    /// Where nothing is kept under `id`, nothing is changed or emitted, and
    /// `false` is returned.
    pub fn delete(&mut self, id: u32) -> (ok: bool)
        ensures
            ok == old(self)@.has(id),
            final(self)@ == old(self)@.delete(id),
            final(self).log() == if ok {
                old(self).log().push((TodoEventView::Deleted { id }))
            } else {
                old(self).log()
            },
            old(self)@.wf() ==> final(self)@.wf(),
    {
        let event = match deletion(self.todos.contains_key(&id), id) {
            Some(event) => event,
            None => {
                return false;
            },
        };
        self.todos.remove(&id);
        self.events.push(TodoEvent::Deleted(event));
        assert(self@.todos =~= old(self)@.delete(id).todos);
        assert(self.log() =~= old(self).log().push((TodoEventView::Deleted { id })));
        proof {
            if old(self)@.wf() {
                law_delete_keeps_well_formed(old(self)@, id);
            }
        }
        true
    }

    /// The notifications that have been emitted and not taken yet, oldest
    /// first.
    pub fn events(&self) -> (events: &Vec<TodoEvent>)
        ensures
            event_views(events@) == self.log(),
    {
        &self.events
    }

    /// Hands over the notifications that have been emitted and not taken
    /// yet, oldest first, and empties the log. The records are left as they
    /// were.
    pub fn take_events(&mut self) -> (taken: Vec<TodoEvent>)
        ensures
            event_views(taken@) == old(self).log(),
            final(self).log() == Seq::<TodoEventView>::empty(),
            final(self)@ == old(self)@,
    {
        let mut taken = Vec::new();
        std::mem::swap(&mut taken, &mut self.events);
        taken
    }
}

impl Default for Todo {
    /// The empty store, as [`Todo::new`] makes it.
    fn default() -> (store: Todo)
        ensures
            store@ == TodoState::empty(),
            store@.wf(),
            store.log() == Seq::<TodoEventView>::empty(),
    {
        Todo::new()
    }
}

} // verus!
