use todo_list::{
    creation, deletion, description_update, next_identifier, status_update, TodoCreated,
    TodoDeleted, TodoDescriptionUpdated, TodoItem, TodoStatusUpdated,
};

fn item(id: u32, description: &str, done: bool) -> TodoItem {
    TodoItem { id, description: description.to_string(), done }
}

#[test]
fn next_identifier_adds_one() {
    assert_eq!(next_identifier(0), 1);
    assert_eq!(next_identifier(1), 2);
    assert_eq!(next_identifier(41), 42);
    assert_eq!(next_identifier(u32::MAX - 1), u32::MAX);
}

#[test]
fn next_identifier_stays_at_the_largest() {
    assert_eq!(next_identifier(u32::MAX), u32::MAX);
    assert_eq!(next_identifier(next_identifier(u32::MAX)), u32::MAX);
}

#[test]
fn creation_gives_the_next_id_to_an_open_task() {
    let step = creation(7, "feed cat".to_string());
    assert_eq!(step.item, item(7, "feed cat", false));
    assert_eq!(step.next_id, 8);
    assert_eq!(step.event, TodoCreated { id: 7, description: "feed cat".to_string() });
}

#[test]
fn creation_at_the_largest_id_does_not_wrap() {
    let step = creation(u32::MAX, "last".to_string());
    assert_eq!(step.item, item(u32::MAX, "last", false));
    assert_eq!(step.next_id, u32::MAX);
    assert_eq!(step.event, TodoCreated { id: u32::MAX, description: "last".to_string() });
}

#[test]
fn status_update_of_a_found_record() {
    let step = status_update(Some(item(3, "a", false)), 3, true);
    assert_eq!(step, Some((item(3, "a", true), TodoStatusUpdated { id: 3, done: true })));

    let step = status_update(Some(item(3, "a", true)), 3, false);
    assert_eq!(step, Some((item(3, "a", false), TodoStatusUpdated { id: 3, done: false })));

    let step = status_update(Some(item(3, "a", true)), 3, true);
    assert_eq!(step, Some((item(3, "a", true), TodoStatusUpdated { id: 3, done: true })));
}

#[test]
fn status_update_of_nothing() {
    assert_eq!(status_update(None, 3, true), None);
    assert_eq!(status_update(None, 0, false), None);
}

#[test]
fn description_update_of_a_found_record() {
    let step = description_update(Some(item(3, "a", true)), 3, "b".to_string());
    assert_eq!(
        step,
        Some((
            item(3, "b", true),
            TodoDescriptionUpdated { id: 3, description: "b".to_string() }
        ))
    );
}

#[test]
fn description_update_of_nothing() {
    assert_eq!(description_update(None, 3, "b".to_string()), None);
}

#[test]
fn deletion_of_a_found_record() {
    assert_eq!(deletion(true, 9), Some(TodoDeleted { id: 9 }));
}

#[test]
fn deletion_of_nothing() {
    assert_eq!(deletion(false, 9), None);
}
