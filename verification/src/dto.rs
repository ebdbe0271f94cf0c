//! The wire contracts: what clients send and what they get back.

use vstd::prelude::*;
use vstd::std_specs::convert::FromSpecImpl;
use crate::model::{Todo, TodoView};
use crate::time::Timestamp;

verus! {

/// A todo on the wire, as contracts see it.
#[verifier::ext_equal]
pub struct TodoDtoView {
    pub uid: u128,
    pub title: Seq<char>,
    pub completed: bool,
    pub created_at: Timestamp,
    pub completed_at: Option<Timestamp>,
    pub updated_at: Timestamp,
}

/// A todo as clients see it: everything but the store's key.
#[derive(Debug, PartialEq, Eq)]
pub struct TodoDto {
    pub uid: u128,
    pub title: String,
    pub completed: bool,
    pub created_at: Timestamp,
    pub completed_at: Option<Timestamp>,
    pub updated_at: Timestamp,
}

impl Clone for TodoDto {
    fn clone(&self) -> (copy: TodoDto)
        ensures
            copy == *self,
    {
        TodoDto {
            uid: self.uid,
            title: self.title.clone(),
            completed: self.completed,
            created_at: self.created_at,
            completed_at: self.completed_at,
            updated_at: self.updated_at,
        }
    }
}

impl View for TodoDto {
    type V = TodoDtoView;

    open spec fn view(&self) -> TodoDtoView {
        TodoDtoView {
            uid: self.uid,
            title: self.title@,
            completed: self.completed,
            created_at: self.created_at,
            completed_at: self.completed_at,
            updated_at: self.updated_at,
        }
    }
}

/// What a client sends to create a todo or to change one.
#[derive(Debug, PartialEq, Eq)]
pub struct NewTodoDto {
    pub title: String,
    pub completed: bool,
}

impl Clone for NewTodoDto {
    fn clone(&self) -> (copy: NewTodoDto)
        ensures
            copy == *self,
    {
        NewTodoDto { title: self.title.clone(), completed: self.completed }
    }
}

/// A todo as it goes out to clients.
pub open spec fn dto_of(todo: TodoView) -> TodoDtoView {
    TodoDtoView {
        uid: todo.uid,
        title: todo.title,
        completed: todo.completed,
        created_at: todo.created_at,
        completed_at: todo.completed_at,
        updated_at: todo.updated_at,
    }
}

impl From<&Todo> for TodoDto {
    /// Every field of the todo but the store's key goes out unchanged.
    fn from(todo: &Todo) -> (dto: TodoDto)
        ensures
            dto@ == dto_of(todo@),
    {
        TodoDto {
            uid: todo.uid,
            title: todo.title.clone(),
            completed: todo.completed,
            created_at: todo.created_at,
            completed_at: todo.completed_at,
            updated_at: todo.updated_at,
        }
    }
}

impl FromSpecImpl<&Todo> for TodoDto {
    open spec fn obeys_from_spec() -> bool {
        true
    }

    open spec fn from_spec(todo: &Todo) -> TodoDto {
        TodoDto {
            uid: todo.uid,
            title: todo.title,
            completed: todo.completed,
            created_at: todo.created_at,
            completed_at: todo.completed_at,
            updated_at: todo.updated_at,
        }
    }
}

} // verus!
