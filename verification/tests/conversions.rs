use todo_backend::data_source::{update_outcome, TodoEntity};
use todo_backend::dto::TodoDto;
use todo_backend::error::TodoError;
use todo_backend::model::{
    entity_insert, entity_update, is_valid_title, todos_from_entities, Todo, TodoDetails,
};
use todo_backend::time::Timestamp;
use todo_backend::uid::parse_uid;
use todo_backend::repository::{handed_on, listing_of, lookup_of};
use todo_backend::web::{
    create_answer, delete_answer, fetch_answer, list_answer, status_of, update_answer, Status,
};

const TEXT: &str = "01ARZ3NDEKTSV4RRFFQ69G5FAV";

fn at(secs: i64) -> Timestamp {
    Timestamp { secs, nanos: 0 }
}

fn row(uid: &str, title: &str, completed: bool, completed_at: Option<Timestamp>) -> TodoEntity {
    TodoEntity {
        id: 7,
        uid: uid.to_string(),
        title: title.to_string(),
        completed,
        created_at: at(10),
        completed_at,
        updated_at: at(20),
    }
}

#[test]
fn parse_uid_reads_what_ulid_reads() {
    assert_eq!(parse_uid("00000000000000000000000001"), Some(1));
    assert_eq!(parse_uid("0000000000000000000000000Z"), Some(31));
    assert_eq!(parse_uid("7ZZZZZZZZZZZZZZZZZZZZZZZZZ"), Some(u128::MAX));
    assert_eq!(parse_uid(TEXT), Some(ulid::Ulid::from_string(TEXT).unwrap().0));
}

#[test]
fn parse_uid_reads_lower_case() {
    assert_eq!(parse_uid(&TEXT.to_lowercase()), parse_uid(TEXT));
}

#[test]
fn parse_uid_refuses_what_is_no_identifier() {
    assert_eq!(parse_uid(""), None);
    assert_eq!(parse_uid("not-an-id"), None);
    assert_eq!(parse_uid("01ARZ3NDEKTSV4RRFFQ69G5FA"), None);
    assert_eq!(parse_uid("01ARZ3NDEKTSV4RRFFQ69G5FAVV"), None);
    assert_eq!(parse_uid("01ARZ3NDEKTSV4RRFFQ69G5FAL"), None);
}

#[test]
fn from_parts_open_todo_has_no_completion() {
    let todo = Todo::from_parts(5, "Buy milk".to_string(), false, at(100));
    assert_eq!(todo.id, None);
    assert_eq!(todo.uid, 5);
    assert_eq!(todo.title, "Buy milk");
    assert!(!todo.completed);
    assert_eq!(todo.created_at, at(100));
    assert_eq!(todo.updated_at, at(100));
    assert_eq!(todo.completed_at, None);
}

#[test]
fn from_parts_completed_todo_is_stamped() {
    let todo = Todo::from_parts(5, "Done".to_string(), true, Timestamp { secs: 3, nanos: 9 });
    assert!(todo.completed);
    assert_eq!(todo.completed_at, Some(Timestamp { secs: 3, nanos: 9 }));
    assert_eq!(todo.created_at, Timestamp { secs: 3, nanos: 9 });
}

#[test]
fn new_todo_has_one_instant_and_a_fresh_identifier() {
    let a = Todo::new("a".to_string(), false);
    let b = Todo::new("b".to_string(), true);
    assert_eq!(a.id, None);
    assert_eq!(a.title, "a");
    assert_eq!(a.created_at, a.updated_at);
    assert_eq!(a.completed_at, None);
    assert_eq!(b.completed_at, Some(b.created_at));
    assert_ne!(a.uid, b.uid);
    assert!(a.created_at.secs > 1_600_000_000);
    assert!(a.created_at.nanos < 1_000_000_000);
}

#[test]
fn from_entity_reads_a_valid_row() {
    let todo = Todo::from_entity(&row(TEXT, "Buy milk", true, Some(at(15)))).unwrap();
    assert_eq!(todo.id, Some(7));
    assert_eq!(todo.uid, ulid::Ulid::from_string(TEXT).unwrap().0);
    assert_eq!(todo.title, "Buy milk");
    assert!(todo.completed);
    assert_eq!(todo.created_at, at(10));
    assert_eq!(todo.completed_at, Some(at(15)));
    assert_eq!(todo.updated_at, at(20));
}

#[test]
fn from_entity_refuses_a_malformed_identifier() {
    assert_eq!(Todo::from_entity(&row("garbage", "t", false, None)), Err(TodoError::Validation));
}

#[test]
fn from_entity_refuses_an_empty_title() {
    assert_eq!(Todo::from_entity(&row(TEXT, "", false, None)), Err(TodoError::Validation));
}

#[test]
fn from_entity_refuses_a_completion_without_instant() {
    assert_eq!(Todo::from_entity(&row(TEXT, "t", true, None)), Err(TodoError::Validation));
    assert_eq!(Todo::from_entity(&row(TEXT, "t", false, Some(at(1)))), Err(TodoError::Validation));
}

#[test]
fn todos_from_entities_keeps_order() {
    let other = "01BX5ZZKBKACTAV9WEVGEMMVRZ";
    let rows = vec![row(TEXT, "one", false, None), row(other, "two", false, None)];
    let todos = todos_from_entities(&rows).unwrap();
    assert_eq!(todos.len(), 2);
    assert_eq!(todos[0].title, "one");
    assert_eq!(todos[1].title, "two");
    assert_eq!(todos[1].uid, ulid::Ulid::from_string(other).unwrap().0);
}

#[test]
fn entity_round_trip_keeps_the_fields() {
    let entity = row(TEXT, "Buy milk", true, Some(at(15)));
    let todo = Todo::from_entity(&entity).unwrap();
    let uid = ulid::Ulid(todo.uid).to_string();
    let back = entity_insert(&todo, &uid);
    assert_eq!(back.uid, entity.uid);
    assert_eq!(back.title, entity.title);
    assert_eq!(back.completed, entity.completed);
    assert_eq!(back.completed_at, entity.completed_at);
}

#[test]
fn entity_round_trip_writes_a_lower_case_identifier_in_upper_case() {
    let entity = row(&TEXT.to_lowercase(), "Buy milk", false, None);
    let todo = Todo::from_entity(&entity).unwrap();
    let uid = ulid::Ulid(todo.uid).to_string();
    let back = entity_insert(&todo, &uid);
    assert_eq!(back.uid, TEXT);
    assert_ne!(back.uid, entity.uid);
}

#[test]
fn todos_from_entities_of_nothing_is_nothing() {
    assert_eq!(todos_from_entities(&Vec::new()), Ok(Vec::new()));
}

#[test]
fn todos_from_entities_fails_as_a_whole() {
    let rows = vec![row(TEXT, "one", false, None), row("bad", "two", false, None)];
    assert_eq!(todos_from_entities(&rows), Err(TodoError::Validation));
}

#[test]
fn entity_update_stamps_a_completion() {
    let update = entity_update(TodoDetails { title: "t".to_string(), completed: true }, at(42));
    assert_eq!(update.title, "t");
    assert!(update.completed);
    assert_eq!(update.completed_at, Some(at(42)));
}

#[test]
fn entity_update_clears_the_stamp_when_reopened() {
    let update = entity_update(TodoDetails { title: "t".to_string(), completed: false }, at(42));
    assert!(!update.completed);
    assert_eq!(update.completed_at, None);
}

#[test]
fn update_outcome_tells_not_found() {
    assert_eq!(update_outcome(0), Err(TodoError::NotFound));
    assert_eq!(update_outcome(1), Ok(()));
    assert_eq!(update_outcome(3), Ok(()));
}

#[test]
fn dto_carries_every_field_but_the_key() {
    let todo = Todo {
        id: Some(9),
        uid: 77,
        title: "Buy milk".to_string(),
        completed: true,
        created_at: at(1),
        completed_at: Some(at(2)),
        updated_at: at(3),
    };
    let dto = TodoDto::from(&todo);
    assert_eq!(
        dto,
        TodoDto {
            uid: 77,
            title: "Buy milk".to_string(),
            completed: true,
            created_at: at(1),
            completed_at: Some(at(2)),
            updated_at: at(3),
        }
    );
}

#[test]
fn only_the_empty_title_is_invalid() {
    assert!(!is_valid_title(""));
    assert!(is_valid_title(" "));
    assert!(is_valid_title("Buy milk"));
}

#[test]
fn clones_are_equal() {
    let entity = row(TEXT, "Buy milk", true, Some(at(15)));
    assert_eq!(entity.clone(), entity);
    let todo = Todo::from_entity(&entity).unwrap();
    assert_eq!(todo.clone(), todo);
    let dto = TodoDto::from(&todo);
    assert_eq!(dto.clone(), dto);
    let details = TodoDetails { title: "t".to_string(), completed: true };
    assert_eq!(details.clone(), details);
    let update = entity_update(details, at(1));
    assert_eq!(update.clone(), update);
}

#[test]
fn status_numbers() {
    assert_eq!(Status::Success.code(), 200);
    assert_eq!(Status::BadRequest.code(), 400);
    assert_eq!(Status::NotFound.code(), 404);
    assert_eq!(Status::InternalServerError.code(), 500);
}

#[test]
fn status_of_success_is_200() {
    assert_eq!(status_of(&Ok::<(), Status>(())), Status::Success);
    assert_eq!(status_of(&Err::<(), Status>(Status::NotFound)), Status::NotFound);
}

#[test]
fn listing_of_reads_the_rows_or_hands_the_failure_on() {
    let todos = listing_of(Ok(vec![row(TEXT, "one", false, None)])).unwrap();
    assert_eq!(todos.len(), 1);
    assert_eq!(todos[0].title, "one");
    assert_eq!(todos[0].id, Some(7));
    assert_eq!(listing_of(Ok(Vec::new())), Ok(Vec::new()));
    assert_eq!(listing_of(Ok(vec![row("bad", "one", false, None)])), Err(TodoError::Validation));
    assert_eq!(listing_of(Err(TodoError::Persistence)), Err(TodoError::Persistence));
    assert_eq!(listing_of(Err(TodoError::NotFound)), Err(TodoError::NotFound));
}

#[test]
fn lookup_of_reads_the_row_or_tells_that_there_is_none() {
    let todo = lookup_of(Some(row(TEXT, "one", false, None))).unwrap();
    assert_eq!(todo.title, "one");
    assert_eq!(todo.id, Some(7));
    assert_eq!(lookup_of(None), Err(TodoError::NotFound));
    assert_eq!(lookup_of(Some(row("bad", "one", false, None))), Err(TodoError::Validation));
    assert_eq!(lookup_of(Some(row(TEXT, "", false, None))), Err(TodoError::Validation));
}

#[test]
fn handed_on_changes_nothing() {
    assert_eq!(handed_on(Ok(())), Ok(()));
    assert_eq!(handed_on(Err(TodoError::NotFound)), Err(TodoError::NotFound));
    assert_eq!(handed_on(Err(TodoError::Persistence)), Err(TodoError::Persistence));
    assert_eq!(handed_on(Err(TodoError::Validation)), Err(TodoError::Validation));
}

#[test]
fn list_answer_is_a_500_for_every_failure() {
    let todo = Todo::from_parts(5, "Buy milk".to_string(), true, at(3));
    let dtos = list_answer(Ok(vec![todo.clone()])).unwrap();
    assert_eq!(dtos, vec![TodoDto::from(&todo)]);
    assert_eq!(list_answer(Ok(Vec::new())), Ok(Vec::new()));
    assert_eq!(list_answer(Err(TodoError::Persistence)), Err(Status::InternalServerError));
    assert_eq!(list_answer(Err(TodoError::Validation)), Err(Status::InternalServerError));
    assert_eq!(list_answer(Err(TodoError::NotFound)), Err(Status::InternalServerError));
}

#[test]
fn fetch_answer_tells_a_missing_todo_from_a_failure() {
    let todo = Todo::from_parts(5, "Buy milk".to_string(), false, at(3));
    assert_eq!(fetch_answer(Ok(todo.clone())), Ok(TodoDto::from(&todo)));
    assert_eq!(fetch_answer(Err(TodoError::NotFound)), Err(Status::NotFound));
    assert_eq!(fetch_answer(Err(TodoError::Validation)), Err(Status::InternalServerError));
    assert_eq!(fetch_answer(Err(TodoError::Persistence)), Err(Status::InternalServerError));
}

#[test]
fn delete_and_update_answers_are_a_404_for_every_failure() {
    assert_eq!(delete_answer(Ok(())), Ok(()));
    assert_eq!(delete_answer(Err(TodoError::NotFound)), Err(Status::NotFound));
    assert_eq!(delete_answer(Err(TodoError::Persistence)), Err(Status::NotFound));
    assert_eq!(delete_answer(Err(TodoError::Validation)), Err(Status::NotFound));
    assert_eq!(update_answer(Ok(())), Ok(()));
    assert_eq!(update_answer(Err(TodoError::NotFound)), Err(Status::NotFound));
    assert_eq!(update_answer(Err(TodoError::Persistence)), Err(Status::NotFound));
    assert_eq!(update_answer(Err(TodoError::Validation)), Err(Status::NotFound));
}

#[test]
fn create_answer_is_a_400_for_every_failure() {
    let todo = Todo::from_parts(5, "Buy milk".to_string(), false, at(3));
    assert_eq!(create_answer(Ok(()), &todo), Ok(TodoDto::from(&todo)));
    assert_eq!(create_answer(Err(TodoError::Persistence), &todo), Err(Status::BadRequest));
    assert_eq!(create_answer(Err(TodoError::Validation), &todo), Err(Status::BadRequest));
    assert_eq!(create_answer(Err(TodoError::NotFound), &todo), Err(Status::BadRequest));
}
