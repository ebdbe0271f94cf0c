//! The domain model: a todo as the business rules see it, keyed by its
//! identifier, and its conversions from and to stored rows.

use vstd::prelude::*;
use crate::data_source::{
    entity_views, TodoEntity, TodoEntityInsert, TodoEntityInsertView, TodoEntityUpdate,
    TodoEntityUpdateView, TodoEntityView,
};
use crate::error::TodoError;
use crate::time::{current_time, Timestamp};
use crate::uid::{fresh_uid, uid_from_str, ulid_parse, ulid_text};

verus! {

/// A title that a todo may carry: any text but the empty one.
pub open spec fn valid_title(title: Seq<char>) -> bool {
    title.len() > 0
}

/// Whether `title` is one that a todo may carry.
pub fn is_valid_title(title: &str) -> (valid: bool)
    ensures
        valid == valid_title(title@),
{
    !title.is_empty()
}

/// The new title and completion that a client asks for.
#[derive(Debug, PartialEq, Eq)]
pub struct TodoDetails {
    pub title: String,
    pub completed: bool,
}

impl Clone for TodoDetails {
    fn clone(&self) -> (copy: TodoDetails)
        ensures
            copy == *self,
    {
        TodoDetails { title: self.title.clone(), completed: self.completed }
    }
}

/// A todo as contracts see it.
#[verifier::ext_equal]
pub struct TodoView {
    pub id: Option<int>,
    pub uid: u128,
    pub title: Seq<char>,
    pub completed: bool,
    pub created_at: Timestamp,
    pub completed_at: Option<Timestamp>,
    pub updated_at: Timestamp,
}

/// A todo. `uid` names it everywhere outside the store; `id` is the store's
/// own key, absent until the todo was read from a row.
#[derive(Debug, PartialEq, Eq)]
pub struct Todo {
    pub id: Option<i32>,
    pub uid: u128,
    pub title: String,
    pub completed: bool,
    pub created_at: Timestamp,
    pub completed_at: Option<Timestamp>,
    pub updated_at: Timestamp,
}

impl Clone for Todo {
    fn clone(&self) -> (copy: Todo)
        ensures
            copy == *self,
    {
        Todo {
            id: self.id,
            uid: self.uid,
            title: self.title.clone(),
            completed: self.completed,
            created_at: self.created_at,
            completed_at: self.completed_at,
            updated_at: self.updated_at,
        }
    }
}

impl View for Todo {
    type V = TodoView;

    open spec fn view(&self) -> TodoView {
        TodoView {
            id: match self.id {
                Some(id) => Some(id as int),
                None => None,
            },
            uid: self.uid,
            title: self.title@,
            completed: self.completed,
            created_at: self.created_at,
            completed_at: self.completed_at,
            updated_at: self.updated_at,
        }
    }
}

impl TodoView {
    /// The title is not empty, and the todo has an instant of completion
    /// exactly when it is completed.
    pub open spec fn wf(self) -> bool {
        valid_title(self.title) && (self.completed_at is Some <==> self.completed)
    }

    /// The todo that a client's request makes at the instant `now`.
    pub open spec fn created(
        uid: u128,
        title: Seq<char>,
        completed: bool,
        now: Timestamp,
    ) -> TodoView {
        TodoView {
            id: None,
            uid,
            title,
            completed,
            created_at: now,
            completed_at: if completed { Some(now) } else { None },
            updated_at: now,
        }
    }

    /// What the store is handed for this todo: the identifier as text, the
    /// title and the completion. The store's key and the instants of creation
    /// and of the last update are not part of it.
    pub open spec fn to_insert(self) -> TodoEntityInsertView {
        TodoEntityInsertView {
            uid: ulid_text(self.uid),
            title: self.title,
            completed: self.completed,
            completed_at: self.completed_at,
        }
    }
}

impl TodoEntityView {
    /// The row holds a todo: its identifier text reads as an identifier, its
    /// title is not empty, and it has an instant of completion exactly when
    /// it is completed.
    pub open spec fn valid(self) -> bool {
        &&& ulid_parse(self.uid) is Some
        &&& valid_title(self.title)
        &&& (self.completed_at is Some <==> self.completed)
    }

    /// The todo that a valid row holds.
    pub open spec fn to_todo(self) -> TodoView {
        TodoView {
            id: Some(self.id),
            uid: ulid_parse(self.uid).unwrap(),
            title: self.title,
            completed: self.completed,
            created_at: self.created_at,
            completed_at: self.completed_at,
            updated_at: self.updated_at,
        }
    }
}

/// The todo of a row, or `Validation` where the row holds none.
pub open spec fn todo_of(row: TodoEntityView) -> Result<TodoView, TodoError> {
    if row.valid() {
        Ok(row.to_todo())
    } else {
        Err(TodoError::Validation)
    }
}

/// The todos of all rows in their order, or `Validation` where some row holds
/// none.
pub open spec fn todos_of(rows: Seq<TodoEntityView>) -> Result<Seq<TodoView>, TodoError> {
    if forall|i: int| 0 <= i < rows.len() ==> (#[trigger] rows[i]).valid() {
        Ok(rows.map_values(|row: TodoEntityView| row.to_todo()))
    } else {
        Err(TodoError::Validation)
    }
}

/// What an update writes for `title` and `completed` at the instant `now`:
/// completing a todo stamps it with `now`, reopening it clears the stamp.
pub open spec fn update_of(
    title: Seq<char>,
    completed: bool,
    now: Timestamp,
) -> TodoEntityUpdateView {
    TodoEntityUpdateView {
        title,
        completed,
        completed_at: if completed { Some(now) } else { None },
    }
}

/// A conversion's result as contracts see it.
pub open spec fn todo_outcome(r: Result<Todo, TodoError>) -> Result<TodoView, TodoError> {
    match r {
        Ok(todo) => Ok(todo@),
        Err(e) => Err(e),
    }
}

/// The todos of a vector as contracts see them.
pub open spec fn todo_views(todos: Seq<Todo>) -> Seq<TodoView> {
    todos.map_values(|todo: Todo| todo@)
}

/// A listing's result as contracts see it.
pub open spec fn todos_outcome(r: Result<Vec<Todo>, TodoError>) -> Result<
    Seq<TodoView>,
    TodoError,
> {
    match r {
        Ok(todos) => Ok(todo_views(todos@)),
        Err(e) => Err(e),
    }
}

impl Todo {
    /// Makes a todo for a client's request: draws its identifier and reads
    /// the clock once, for the instants of creation, of the last update and,
    /// if it is made completed, of completion.
    pub fn new(title: String, completed: bool) -> (todo: Todo)
        ensures
            todo@ == TodoView::created(todo.uid, title@, completed, todo.created_at),
            todo@.wf() <==> valid_title(title@),
    {
        let uid = fresh_uid();
        let now = current_time();
        Todo::from_parts(uid, title, completed, now)
    }

    /// The todo that a request makes under the identifier `uid` at the
    /// instant `now`. It is well formed exactly when the title is not empty.
    pub fn from_parts(uid: u128, title: String, completed: bool, now: Timestamp) -> (todo: Todo)
        ensures
            todo@ == TodoView::created(uid, title@, completed, now),
            todo@.wf() <==> valid_title(title@),
    {
        Todo {
            id: None,
            uid,
            title,
            completed,
            created_at: now,
            completed_at: if completed { Some(now) } else { None },
            updated_at: now,
        }
    }

    /// Reads a todo from a stored row.
    ///
    /// Fails with `Validation` where the row's identifier text is no
    /// identifier, its title is empty, or its instant of completion does not
    /// go with its completion.
    pub fn from_entity(entity: &TodoEntity) -> (r: Result<Todo, TodoError>)
        ensures
            todo_outcome(r) == todo_of(entity@),
            r matches Ok(todo) ==> todo@.wf() && todo.id is Some,
            r matches Err(e) ==> e == TodoError::Validation,
    {
        let uid = match uid_from_str(entity.uid.as_str()) {
            Ok(uid) => uid,
            Err(_) => {
                return Err(TodoError::Validation);
            },
        };
        if !is_valid_title(entity.title.as_str()) {
            return Err(TodoError::Validation);
        }
        if entity.completed_at.is_some() != entity.completed {
            return Err(TodoError::Validation);
        }
        Ok(
            Todo {
                id: Some(entity.id),
                uid,
                title: entity.title.clone(),
                completed: entity.completed,
                created_at: entity.created_at,
                completed_at: entity.completed_at,
                updated_at: entity.updated_at,
            },
        )
    }
}

/// What the store is handed for `todo`, whose identifier is written as `uid`:
/// the title and the completion with its instant, and neither the store's key
/// nor the instants of creation and of the last update.
pub fn entity_insert<'a>(todo: &'a Todo, uid: &'a str) -> (insert: TodoEntityInsert<'a>)
    ensures
        insert@ == (TodoEntityInsertView { uid: uid@, ..todo@.to_insert() }),
{
    TodoEntityInsert {
        uid,
        title: todo.title.as_str(),
        completed: todo.completed,
        completed_at: todo.completed_at,
    }
}

/// The fields that an update writes for `details` at the instant `now`.
pub fn entity_update(details: TodoDetails, now: Timestamp) -> (update: TodoEntityUpdate)
    ensures
        update@ == update_of(details.title@, details.completed, now),
{
    TodoEntityUpdate {
        title: details.title,
        completed: details.completed,
        completed_at: if details.completed { Some(now) } else { None },
    }
}

/// Every todo of the sequence is well formed and carries the key of the row
/// that it was read from.
pub open spec fn all_read_from_rows(todos: Seq<Todo>) -> bool {
    forall|i: int| 0 <= i < todos.len() ==> (#[trigger] todos[i])@.wf() && todos[i].id is Some
}

/// Reads the todos of all rows, in their order.
///
/// One row that holds no todo fails the whole listing with `Validation`.
pub fn todos_from_entities(entities: &Vec<TodoEntity>) -> (r: Result<Vec<Todo>, TodoError>)
    ensures
        todos_outcome(r) == todos_of(entity_views(entities@)),
        r matches Ok(todos) ==> all_read_from_rows(todos@),
        r matches Err(e) ==> e == TodoError::Validation,
{
    let mut todos: Vec<Todo> = Vec::new();
    let mut i: usize = 0;
    while i < entities.len()
        invariant
            i <= entities.len(),
            todos@.len() == i,
            forall|j: int| 0 <= j < i ==> (#[trigger] entities@[j])@.valid(),
            forall|j: int| 0 <= j < i ==> (#[trigger] todos@[j])@ == entities@[j]@.to_todo(),
            all_read_from_rows(todos@),
        decreases entities.len() - i,
    {
        match Todo::from_entity(&entities[i]) {
            Ok(todo) => {
                todos.push(todo);
            },
            Err(_) => {
                assert(!entity_views(entities@)[i as int].valid());
                return Err(TodoError::Validation);
            },
        }
        i += 1;
    }
    assert(todo_views(todos@) =~= entity_views(entities@).map_values(
        |row: TodoEntityView| row.to_todo(),
    ));
    Ok(todos)
}

} // verus!
