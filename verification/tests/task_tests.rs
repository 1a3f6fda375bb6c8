use task_auth::error::{APIErrorResponse, BAD_REQUEST};
use task_auth::task::{require_found, require_known_priority, Task, TaskPayload, NOT_FOUND};

fn bad(message: &str) -> Option<APIErrorResponse> {
    Some(APIErrorResponse::new(BAD_REQUEST, String::from(message)))
}

fn payload(name: &str, description: &str, priority: &str) -> TaskPayload {
    TaskPayload::new(
        String::from(name),
        String::from(description),
        String::from(priority),
        1_700_000_000,
    )
}

#[test]
fn empty_task_texts_are_reported_in_order() {
    assert_eq!(payload("", "", "").validate(), bad("Name cannot be empty"));
    assert_eq!(payload("n", "", "").validate(), bad("Description cannot be empty"));
    assert_eq!(payload("n", "d", "").validate(), bad("Priority cannot be empty"));
    assert_eq!(payload("n", "d", "p").validate(), None);
    let task = Task::from_payload(5, &payload("n", "", "p"));
    assert_eq!(task.validate(), bad("Description cannot be empty"));
    assert_eq!(Task::from_payload(5, &payload("n", "d", "p")).validate(), None);
}

#[test]
fn task_of_payload_copies_every_field() {
    let task = Task::from_payload(5, &payload("n", "d", "p"));
    assert_eq!(task.id, 5);
    assert_eq!((task.name.as_str(), task.description.as_str()), ("n", "d"));
    assert_eq!((task.priority.as_str(), task.date), ("p", 1_700_000_000));
    let a = Task::new_from_task_payload(&payload("n", "d", "p"));
    let b = Task::new_from_task_payload(&payload("n", "d", "p"));
    assert_ne!(a.id, b.id);
    assert_eq!((a.name.as_str(), a.date), ("n", 1_700_000_000));
    let built = Task::new(9, String::from("a"), String::from("b"), String::from("c"), 3);
    assert_eq!((built.id, built.date), (9, 3));
}

#[test]
fn task_service_answers() {
    assert_eq!(require_known_priority(true), Ok(()));
    assert_eq!(
        require_known_priority(false),
        Err(APIErrorResponse::new(BAD_REQUEST, String::from("Invalid priority")))
    );
    assert_eq!(require_found(true), Ok(()));
    assert_eq!(
        require_found(false),
        Err(APIErrorResponse::new(NOT_FOUND, String::from("Task not found")))
    );
    assert_eq!(NOT_FOUND, 404);
}
