use todo_backend::data_source::{TodoDataSource, TodoEntityInsert, TodoEntityUpdate};
use todo_backend::error::TodoError;
use todo_backend::memory::InMemoryTodoDataSource;
use todo_backend::time::Timestamp;

const FIRST: &str = "00000000000000000000000001";
const SECOND: &str = "00000000000000000000000002";

fn at(secs: i64) -> Timestamp {
    Timestamp { secs, nanos: 0 }
}

fn insert<'a>(uid: &'a str, title: &'a str) -> TodoEntityInsert<'a> {
    TodoEntityInsert { uid, title, completed: false, completed_at: None }
}

#[test]
fn empty_store_lists_nothing() {
    let store = InMemoryTodoDataSource::new();
    assert_eq!(store.get_all().unwrap().len(), 0);
    assert!(store.get_by_id(1).is_none());
}

#[test]
fn add_at_assigns_keys_and_instants() {
    let mut store = InMemoryTodoDataSource::new();
    assert_eq!(store.add_at(&insert(FIRST, "one"), at(5)), Ok(()));
    assert_eq!(store.add_at(&insert(SECOND, "two"), at(6)), Ok(()));
    let rows = store.get_all().unwrap();
    assert_eq!(rows.len(), 2);
    assert_eq!(rows[0].id, 1);
    assert_eq!(rows[0].uid, FIRST);
    assert_eq!(rows[0].title, "one");
    assert!(!rows[0].completed);
    assert_eq!(rows[0].created_at, at(5));
    assert_eq!(rows[0].updated_at, at(5));
    assert_eq!(rows[0].completed_at, None);
    assert_eq!(rows[1].id, 2);
    assert_eq!(rows[1].uid, SECOND);
    assert_eq!(rows[1].created_at, at(6));
}

#[test]
fn add_at_refuses_a_taken_identifier() {
    let mut store = InMemoryTodoDataSource::new();
    assert_eq!(store.add_at(&insert(FIRST, "one"), at(5)), Ok(()));
    assert_eq!(store.add_at(&insert(FIRST, "again"), at(6)), Err(TodoError::Persistence));
    let rows = store.get_all().unwrap();
    assert_eq!(rows.len(), 1);
    assert_eq!(rows[0].title, "one");
}

#[test]
fn add_reads_the_clock_once() {
    let mut store = InMemoryTodoDataSource::new();
    assert_eq!(store.add(&insert(FIRST, "one")), Ok(()));
    let row = store.get_by_id(1).unwrap();
    assert_eq!(row.created_at, row.updated_at);
    assert!(row.created_at.secs > 1_600_000_000);
}

#[test]
fn get_by_id_looks_up_by_the_text_of_the_identifier() {
    let mut store = InMemoryTodoDataSource::new();
    store.add_at(&insert(FIRST, "one"), at(5)).unwrap();
    store.add_at(&insert(SECOND, "two"), at(6)).unwrap();
    assert_eq!(store.get_by_id(2).unwrap().title, "two");
    assert_eq!(store.get_by_id(1).unwrap().title, "one");
    assert!(store.get_by_id(3).is_none());
}

#[test]
fn get_by_id_does_not_find_a_row_written_in_lower_case() {
    let mut store = InMemoryTodoDataSource::new();
    store.add_at(&insert("0000000000000000000000000a", "ten"), at(5)).unwrap();
    assert!(store.get_by_id(10).is_none());
    store.add_at(&insert("0000000000000000000000000A", "TEN"), at(6)).unwrap();
    assert_eq!(store.get_by_id(10).unwrap().title, "TEN");
}

#[test]
fn delete_by_id_removes_the_row_and_keeps_the_others() {
    let mut store = InMemoryTodoDataSource::new();
    store.add_at(&insert(FIRST, "one"), at(5)).unwrap();
    store.add_at(&insert(SECOND, "two"), at(6)).unwrap();
    assert_eq!(store.delete_by_id(1), Ok(()));
    assert!(store.get_by_id(1).is_none());
    let rows = store.get_all().unwrap();
    assert_eq!(rows.len(), 1);
    assert_eq!(rows[0].id, 2);
    assert_eq!(rows[0].title, "two");
}

#[test]
fn delete_by_id_of_what_is_not_there_succeeds() {
    let mut store = InMemoryTodoDataSource::new();
    store.add_at(&insert(FIRST, "one"), at(5)).unwrap();
    assert_eq!(store.delete_by_id(99), Ok(()));
    assert_eq!(store.get_all().unwrap().len(), 1);
}

#[test]
fn keys_are_not_used_twice() {
    let mut store = InMemoryTodoDataSource::new();
    store.add_at(&insert(FIRST, "one"), at(5)).unwrap();
    store.delete_by_id(1).unwrap();
    store.add_at(&insert(FIRST, "one again"), at(7)).unwrap();
    assert_eq!(store.get_by_id(1).unwrap().id, 2);
}

#[test]
fn update_at_rewrites_title_completion_and_instant() {
    let mut store = InMemoryTodoDataSource::new();
    store.add_at(&insert(FIRST, "one"), at(5)).unwrap();
    store.add_at(&insert(SECOND, "two"), at(6)).unwrap();
    let details =
        TodoEntityUpdate { title: "uno".to_string(), completed: true, completed_at: Some(at(8)) };
    assert_eq!(store.update_at(1, details, at(9)), Ok(()));
    let row = store.get_by_id(1).unwrap();
    assert_eq!(row.id, 1);
    assert_eq!(row.uid, FIRST);
    assert_eq!(row.title, "uno");
    assert!(row.completed);
    assert_eq!(row.created_at, at(5));
    assert_eq!(row.completed_at, Some(at(8)));
    assert_eq!(row.updated_at, at(9));
    let other = store.get_by_id(2).unwrap();
    assert_eq!(other.title, "two");
    assert_eq!(other.updated_at, at(6));
}

#[test]
fn update_at_of_what_is_not_there_is_not_found() {
    let mut store = InMemoryTodoDataSource::new();
    store.add_at(&insert(FIRST, "one"), at(5)).unwrap();
    let details = TodoEntityUpdate { title: "x".to_string(), completed: false, completed_at: None };
    assert_eq!(store.update_at(2, details, at(9)), Err(TodoError::NotFound));
    assert_eq!(store.get_by_id(1).unwrap().title, "one");
}

#[test]
fn update_reads_the_clock() {
    let mut store = InMemoryTodoDataSource::new();
    store.add_at(&insert(FIRST, "one"), at(5)).unwrap();
    let details = TodoEntityUpdate { title: "x".to_string(), completed: false, completed_at: None };
    assert_eq!(store.update(1, details), Ok(()));
    assert!(store.get_by_id(1).unwrap().updated_at.secs > 1_600_000_000);
}
