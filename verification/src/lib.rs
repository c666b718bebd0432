//! A verified record store for a list of tasks.
//!
//! [`Todo`] keeps the records in memory and hands out their identifiers.
//! Every operation is specified over a mathematical model of the store,
//! [`TodoState`], and every notification that a successful mutation gives
//! rise to is appended to a log that the owner of the store can read and
//! drain.
//!
//! - [`item`] and [`event`]: the record and the notifications, with their
//!   mathematical values.
//! - [`state`]: the model, and what each operation makes of it.
//! - [`step`]: what each operation decides about the one record it looks at,
//!   apart from where the records are kept.
//! - [`store`]: the store.
//! - [`laws`]: what holds of every store, proved over the model.

pub mod event;
pub mod item;
pub mod laws;
pub mod state;
pub mod step;
pub mod store;

pub use event::{
    event_views, TodoCreated, TodoDeleted, TodoDescriptionUpdated, TodoEvent, TodoEventView,
    TodoStatusUpdated,
};
pub use item::{TodoItem, TodoItemView};
pub use state::{creations, following_id, TodoOp, TodoState};
pub use step::{creation, deletion, description_update, next_identifier, status_update, Creation};
pub use store::Todo;
