use todo_list::{
    TodoCreated, TodoDeleted, TodoDescriptionUpdated, TodoEvent, TodoItem, TodoStatusUpdated,
};

#[test]
fn new_item_is_not_done() {
    let item = TodoItem::new(4, "a".to_string());
    assert_eq!(item.id, 4);
    assert_eq!(item.description, "a");
    assert!(!item.done);
}

#[test]
fn with_status_replaces_only_the_flag() {
    let item = TodoItem::new(4, "a".to_string()).with_status(true);
    assert_eq!(item, TodoItem { id: 4, description: "a".to_string(), done: true });
    let item = item.with_status(false);
    assert_eq!(item, TodoItem { id: 4, description: "a".to_string(), done: false });
}

#[test]
fn with_description_replaces_only_the_text() {
    let item = TodoItem::new(4, "a".to_string()).with_status(true).with_description("b".to_string());
    assert_eq!(item, TodoItem { id: 4, description: "b".to_string(), done: true });
}

#[test]
fn clone_of_an_item_is_equal_to_it() {
    let item = TodoItem { id: 1, description: "a".to_string(), done: true };
    assert_eq!(item.clone(), item);
}

#[test]
fn items_are_equal_when_all_fields_are() {
    let item = TodoItem { id: 1, description: "a".to_string(), done: false };
    assert_eq!(item, TodoItem { id: 1, description: "a".to_string(), done: false });
    assert_ne!(item, TodoItem { id: 2, description: "a".to_string(), done: false });
    assert_ne!(item, TodoItem { id: 1, description: "b".to_string(), done: false });
    assert_ne!(item, TodoItem { id: 1, description: "a".to_string(), done: true });
}

#[test]
fn events_are_equal_when_kind_and_fields_are() {
    let created = TodoEvent::Created(TodoCreated { id: 1, description: "a".to_string() });
    let described =
        TodoEvent::DescriptionUpdated(TodoDescriptionUpdated { id: 1, description: "a".to_string() });
    let status = TodoEvent::StatusUpdated(TodoStatusUpdated { id: 1, done: true });
    let deleted = TodoEvent::Deleted(TodoDeleted { id: 1 });

    assert_eq!(created, TodoEvent::Created(TodoCreated { id: 1, description: "a".to_string() }));
    assert_ne!(created, TodoEvent::Created(TodoCreated { id: 2, description: "a".to_string() }));
    assert_ne!(created, TodoEvent::Created(TodoCreated { id: 1, description: "b".to_string() }));
    assert_ne!(created, described);
    assert_ne!(created, status);
    assert_ne!(created, deleted);

    assert_eq!(
        described,
        TodoEvent::DescriptionUpdated(TodoDescriptionUpdated { id: 1, description: "a".to_string() })
    );
    assert_ne!(
        described,
        TodoEvent::DescriptionUpdated(TodoDescriptionUpdated { id: 1, description: "b".to_string() })
    );

    assert_eq!(status, TodoEvent::StatusUpdated(TodoStatusUpdated { id: 1, done: true }));
    assert_ne!(status, TodoEvent::StatusUpdated(TodoStatusUpdated { id: 1, done: false }));
    assert_ne!(status, deleted);

    assert_eq!(deleted, TodoEvent::Deleted(TodoDeleted { id: 1 }));
    assert_ne!(deleted, TodoEvent::Deleted(TodoDeleted { id: 2 }));
}

#[test]
fn every_event_carries_the_id_of_its_task() {
    let created = TodoEvent::Created(TodoCreated { id: 3, description: "a".to_string() });
    let described =
        TodoEvent::DescriptionUpdated(TodoDescriptionUpdated { id: 4, description: "a".to_string() });
    let status = TodoEvent::StatusUpdated(TodoStatusUpdated { id: 5, done: true });
    let deleted = TodoEvent::Deleted(TodoDeleted { id: u32::MAX });
    assert_eq!(created.id(), 3);
    assert_eq!(described.id(), 4);
    assert_eq!(status.id(), 5);
    assert_eq!(deleted.id(), u32::MAX);
}
