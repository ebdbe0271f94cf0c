//! The request handlers: each reads an identifier or a body, asks the
//! repository, and maps what came back to a status.
//!
//! What a handler answers over a store whose contents decide is written down
//! once, as a function of those contents (`list_response`, `fetch_response`,
//! `delete_response`, `update_response`, `create_response`); the handler's
//! contract says that it answers just that. Over any other store the
//! contract says what is decided before the store is asked, and the handler
//! answers with a function of what the repository answered (`list_answer`,
//! `fetch_answer`, `delete_answer`, `update_answer`, `create_answer`), so
//! that no failure of the repository is lost.

use vstd::prelude::*;
use crate::data_source::StoreState;
use crate::dto::{dto_of, NewTodoDto, TodoDto, TodoDtoView};
use crate::error::TodoError;
use crate::model::{
    is_valid_title, todo_of, todo_outcome, todo_views, todos_of, todos_outcome, valid_title,
    Todo, TodoDetails, TodoView,
};
use crate::repository::{
    repository_adds, repository_deletes, repository_finds, repository_lists,
    repository_updates, TodoRepository,
};
use crate::uid::{parse_uid, reads_back, ulid_parse, ulid_text};

verus! {

/// The statuses that the handlers answer with.
#[derive(Clone, Copy, Debug, PartialEq, Eq, Structural)]
pub enum Status {
    Success,
    BadRequest,
    NotFound,
    InternalServerError,
}

impl Status {
    /// The number of the status.
    pub open spec fn spec_code(self) -> int {
        match self {
            Status::Success => 200,
            Status::BadRequest => 400,
            Status::NotFound => 404,
            Status::InternalServerError => 500,
        }
    }

    /// The number of the status.
    pub fn code(self) -> (code: u16)
        ensures
            code == self.spec_code(),
    {
        match self {
            Status::Success => 200,
            Status::BadRequest => 400,
            Status::NotFound => 404,
            Status::InternalServerError => 500,
        }
    }
}

/// The status that a handler's result goes out with: 200 for every success,
/// the failure's own status otherwise.
pub fn status_of<T>(result: &Result<T, Status>) -> (status: Status)
    ensures
        status == match *result {
            Ok(_) => Status::Success,
            Err(failure) => failure,
        },
{
    match result {
        Ok(_) => Status::Success,
        Err(failure) => *failure,
    }
}

/// The todos as they go out to clients, in their order.
pub open spec fn dtos_of(todos: Seq<TodoView>) -> Seq<TodoDtoView> {
    todos.map_values(|todo: TodoView| dto_of(todo))
}

/// What a listing answers over the store `state`: every todo, or 500 where
/// some row holds none.
pub open spec fn list_response(state: StoreState) -> Result<Seq<TodoDtoView>, Status> {
    match todos_of(state.rows) {
        Ok(todos) => Ok(dtos_of(todos)),
        Err(_) => Err(Status::InternalServerError),
    }
}

/// What a fetch of `id` answers over the store `state`: the todo; 404 where
/// `id` is no identifier or the store has no such todo; 500 where the store
/// has a row under `id` that holds no todo.
pub open spec fn fetch_response(state: StoreState, id: Seq<char>) -> Result<TodoDtoView, Status> {
    match ulid_parse(id) {
        Some(uid) => match state.find(ulid_text(uid)) {
            Some(row) => match todo_of(row) {
                Ok(todo) => Ok(dto_of(todo)),
                Err(_) => Err(Status::InternalServerError),
            },
            None => Err(Status::NotFound),
        },
        None => Err(Status::NotFound),
    }
}

/// What a request to delete `id` answers: success, whether or not the todo
/// was there, or 404 where `id` is no identifier.
pub open spec fn delete_response(id: Seq<char>) -> Result<(), Status> {
    match ulid_parse(id) {
        Some(_) => Ok(()),
        None => Err(Status::NotFound),
    }
}

/// The store after a request to delete `id`: without the todo, or, where
/// `id` is no identifier, as it was.
pub open spec fn after_delete(state: StoreState, id: Seq<char>) -> StoreState {
    match ulid_parse(id) {
        Some(uid) => state.deleted(ulid_text(uid)),
        None => state,
    }
}

/// What a request to give the todo `id` the title `title` answers over the
/// store `state`: 404 where `id` is no identifier, else 400 where the title
/// is empty, else 404 where the store has no such todo, else success.
pub open spec fn update_response(state: StoreState, id: Seq<char>, title: Seq<char>) -> Result<
    (),
    Status,
> {
    match ulid_parse(id) {
        Some(uid) => if !valid_title(title) {
            Err(Status::BadRequest)
        } else if state.has_uid(ulid_text(uid)) {
            Ok(())
        } else {
            Err(Status::NotFound)
        },
        None => Err(Status::NotFound),
    }
}

/// What a request to store the new todo `todo` answers over the store
/// `state`: the todo, or 400 where the store does not accept it.
pub open spec fn create_response(state: StoreState, todo: TodoView) -> Result<TodoDtoView, Status> {
    if state.accepts(ulid_text(todo.uid)) {
        Ok(dto_of(todo))
    } else {
        Err(Status::BadRequest)
    }
}

/// The todos on the wire as contracts see them.
pub open spec fn dto_views(dtos: Seq<TodoDto>) -> Seq<TodoDtoView> {
    dtos.map_values(|dto: TodoDto| dto@)
}

/// A listing's answer as contracts see it.
pub open spec fn dtos_outcome(r: Result<Vec<TodoDto>, Status>) -> Result<Seq<TodoDtoView>, Status> {
    match r {
        Ok(dtos) => Ok(dto_views(dtos@)),
        Err(status) => Err(status),
    }
}

/// An answer that carries one todo as contracts see it.
pub open spec fn dto_outcome(r: Result<TodoDto, Status>) -> Result<TodoDtoView, Status> {
    match r {
        Ok(dto) => Ok(dto@),
        Err(status) => Err(status),
    }
}

/// What a listing answers for what the repository answered: every todo as
/// it goes out to clients, or 500 for any failure.
pub open spec fn answer_to_listing(answer: Result<Seq<TodoView>, TodoError>) -> Result<
    Seq<TodoDtoView>,
    Status,
> {
    match answer {
        Ok(todos) => Ok(dtos_of(todos)),
        Err(_) => Err(Status::InternalServerError),
    }
}

/// What a fetch answers for what the repository answered: the todo as it
/// goes out to clients, 404 where the repository found none, and 500 for any
/// other failure.
pub open spec fn answer_to_fetch(answer: Result<TodoView, TodoError>) -> Result<
    TodoDtoView,
    Status,
> {
    match answer {
        Ok(todo) => Ok(dto_of(todo)),
        Err(TodoError::NotFound) => Err(Status::NotFound),
        Err(_) => Err(Status::InternalServerError),
    }
}

/// What a request to delete or to update answers for what the repository
/// answered: success, or 404 for any failure.
pub open spec fn answer_to_change(answer: Result<(), TodoError>) -> Result<(), Status> {
    match answer {
        Ok(done) => Ok(done),
        Err(_) => Err(Status::NotFound),
    }
}

/// What a request to create `todo` answers for what the repository answered
/// when it was asked to store it: the todo as it goes out to clients, or 400
/// for any failure.
pub open spec fn answer_to_create(answer: Result<(), TodoError>, todo: TodoView) -> Result<
    TodoDtoView,
    Status,
> {
    match answer {
        Ok(_) => Ok(dto_of(todo)),
        Err(_) => Err(Status::BadRequest),
    }
}

/// Answers a listing for what the repository answered.
pub fn list_answer(answer: Result<Vec<Todo>, TodoError>) -> (r: Result<Vec<TodoDto>, Status>)
    ensures
        dtos_outcome(r) == answer_to_listing(todos_outcome(answer)),
{
    let todos = match answer {
        Ok(todos) => todos,
        Err(_) => {
            return Err(Status::InternalServerError);
        },
    };
    let mut dtos: Vec<TodoDto> = Vec::new();
    let mut i: usize = 0;
    while i < todos.len()
        invariant
            i <= todos.len(),
            dtos@.len() == i,
            forall|j: int| 0 <= j < i ==> (#[trigger] dtos@[j])@ == dto_of(todos@[j]@),
        decreases todos.len() - i,
    {
        dtos.push(TodoDto::from(&todos[i]));
        i += 1;
    }
    assert(dto_views(dtos@) =~= dtos_of(todo_views(todos@)));
    Ok(dtos)
}

/// Answers a fetch for what the repository answered.
pub fn fetch_answer(answer: Result<Todo, TodoError>) -> (r: Result<TodoDto, Status>)
    ensures
        dto_outcome(r) == answer_to_fetch(todo_outcome(answer)),
{
    match answer {
        Ok(todo) => Ok(TodoDto::from(&todo)),
        Err(TodoError::NotFound) => Err(Status::NotFound),
        Err(_) => Err(Status::InternalServerError),
    }
}

/// Answers a request to delete for what the repository answered.
pub fn delete_answer(answer: Result<(), TodoError>) -> (r: Result<(), Status>)
    ensures
        r == answer_to_change(answer),
{
    match answer {
        Ok(done) => Ok(done),
        Err(_) => Err(Status::NotFound),
    }
}

/// Answers a request to update for what the repository answered.
pub fn update_answer(answer: Result<(), TodoError>) -> (r: Result<(), Status>)
    ensures
        r == answer_to_change(answer),
{
    match answer {
        Ok(done) => Ok(done),
        Err(_) => Err(Status::NotFound),
    }
}

/// Answers a request to create `todo` for what the repository answered when
/// it was asked to store it.
pub fn create_answer(answer: Result<(), TodoError>, todo: &Todo) -> (r: Result<TodoDto, Status>)
    ensures
        dto_outcome(r) == answer_to_create(answer, todo@),
{
    match answer {
        Ok(_) => Ok(TodoDto::from(todo)),
        Err(_) => Err(Status::BadRequest),
    }
}

/// Lists all todos: asks the repository once and answers with `list_answer`
/// what it answered. Every failure is a 500; an empty store is no failure.
pub fn find_all<R: TodoRepository>(repo: &R) -> (r: Result<Vec<TodoDto>, Status>)
    ensures
        exists|answer: Result<Vec<Todo>, TodoError>|
            repository_lists(repo, answer) && dtos_outcome(r) == answer_to_listing(
                todos_outcome(answer),
            ),
        r matches Err(status) ==> status == Status::InternalServerError,
        repo.dependable() ==> dtos_outcome(r) == list_response(repo.state()),
        repo.dependable() && repo.state().rows.len() == 0 ==> (r matches Ok(dtos) && dtos@.len()
            == 0),
{
    let answer = repo.get_all();
    assert(repository_lists(repo, answer));
    let r = list_answer(answer);
    proof {
        if repo.dependable() && repo.state().rows.len() == 0 {
            assert(dtos_of(todos_of(repo.state().rows).unwrap()).len() == 0);
            assert(dto_views(r.unwrap()@).len() == r.unwrap()@.len());
        }
    }
    r
}

/// Fetches the todo that `id` names.
///
/// An `id` that is no identifier is a 404 before the repository is asked.
/// Otherwise the repository is asked once and `fetch_answer` answers what it
/// answered: 404 where it found no such todo, 500 for any other failure, such
/// as a stored row that holds no todo.
pub fn find_by_id<R: TodoRepository>(repo: &R, id: &str) -> (r: Result<TodoDto, Status>)
    ensures
        r matches Err(status) ==> status == Status::NotFound || (ulid_parse(id@) is Some
            && status == Status::InternalServerError),
        ulid_parse(id@) is None ==> r is Err,
        ulid_parse(id@) matches Some(uid) ==> exists|answer: Result<Todo, TodoError>|
            repository_finds(repo, uid, answer) && dto_outcome(r) == answer_to_fetch(
                todo_outcome(answer),
            ),
        repo.dependable() ==> dto_outcome(r) == fetch_response(repo.state(), id@),
{
    let uid = match parse_uid(id) {
        Some(uid) => uid,
        None => {
            return Err(Status::NotFound);
        },
    };
    let answer = repo.get_by_id(uid);
    assert(repository_finds(repo, uid, answer));
    fetch_answer(answer)
}

/// Deletes the todo that `id` names. Every failure is a 404; that the todo
/// was not there is none. An `id` that is no identifier fails before the
/// repository is asked; otherwise the repository is asked once and
/// `delete_answer` answers what it answered.
pub fn delete_by_id<R: TodoRepository>(repo: &mut R, id: &str) -> (r: Result<(), Status>)
    ensures
        r matches Err(status) ==> status == Status::NotFound,
        ulid_parse(id@) is None ==> r is Err && *final(repo) == *old(repo),
        ulid_parse(id@) matches Some(uid) ==> exists|answer: Result<(), TodoError>|
            repository_deletes(*old(repo), uid, answer) && r == answer_to_change(answer),
        final(repo).dependable() == old(repo).dependable(),
        old(repo).dependable() ==> r == delete_response(id@),
        old(repo).dependable() ==> final(repo).state() == after_delete(old(repo).state(), id@),
{
    let uid = match parse_uid(id) {
        Some(uid) => uid,
        None => {
            return Err(Status::NotFound);
        },
    };
    let answer = repo.delete_by_id(uid);
    assert(repository_deletes(*old(repo), uid, answer));
    delete_answer(answer)
}

/// Gives the todo that `id` names a new title and completion.
///
/// An `id` that is no identifier is a 404 before the repository is asked.
/// An empty title is a 400, also before the repository is asked: a todo
/// never carries an empty title, and what a client sent that cannot be a
/// todo is a bad request here as it is on creation. Otherwise the repository
/// is asked once and `update_answer` answers what it answered: every failure
/// of the repository is a 404. A failure leaves a dependable store as it
/// was.
pub fn update_by_id<R: TodoRepository>(repo: &mut R, id: &str, details: NewTodoDto) -> (r: Result<
    (),
    Status,
>)
    ensures
        r matches Err(status) ==> status == (if ulid_parse(id@) is Some && !valid_title(
            details.title@,
        ) {
            Status::BadRequest
        } else {
            Status::NotFound
        }),
        ulid_parse(id@) is None || !valid_title(details.title@) ==> r is Err && *final(repo)
            == *old(repo),
        ulid_parse(id@) is Some && valid_title(details.title@) ==> exists|
            sent: TodoDetails,
            answer: Result<(), TodoError>,
        |
            sent.title@ == details.title@ && sent.completed == details.completed
                && repository_updates(*old(repo), ulid_parse(id@).unwrap(), sent, answer) && r
                == answer_to_change(answer),
        final(repo).dependable() == old(repo).dependable(),
        old(repo).dependable() ==> r == update_response(old(repo).state(), id@, details.title@),
        old(repo).dependable() ==> match r {
            Ok(_) => final(repo).state().is_revision_of(
                old(repo).state(),
                ulid_text(ulid_parse(id@).unwrap()),
                details.title@,
                details.completed,
            ),
            Err(_) => final(repo).state() == old(repo).state(),
        },
{
    let uid = match parse_uid(id) {
        Some(uid) => uid,
        None => {
            return Err(Status::NotFound);
        },
    };
    if !is_valid_title(details.title.as_str()) {
        return Err(Status::BadRequest);
    }
    let details = TodoDetails { title: details.title, completed: details.completed };
    let ghost sent = details;
    let answer = repo.update(uid, details);
    assert(repository_updates(*old(repo), uid, sent, answer));
    update_answer(answer)
}

/// Stores the new todo `todo` and answers with it: asks the repository once
/// and answers with `create_answer` what it answered. Every failure of the
/// repository is a 400 and leaves a dependable store as it was.
pub fn register<R: TodoRepository>(repo: &mut R, todo: Todo) -> (r: Result<TodoDto, Status>)
    ensures
        exists|answer: Result<(), TodoError>|
            repository_adds(*old(repo), todo, answer) && dto_outcome(r) == answer_to_create(
                answer,
                todo@,
            ),
        r matches Err(status) ==> status == Status::BadRequest,
        r matches Ok(dto) ==> dto@ == dto_of(todo@),
        final(repo).dependable() == old(repo).dependable(),
        old(repo).dependable() ==> reads_back(todo.uid),
        old(repo).dependable() ==> dto_outcome(r) == create_response(old(repo).state(), todo@),
        old(repo).dependable() ==> match r {
            Ok(_) => final(repo).state().is_addition_to(old(repo).state(), todo@.to_insert()),
            Err(_) => final(repo).state() == old(repo).state(),
        },
{
    let answer = repo.add(&todo);
    assert(repository_adds(*old(repo), todo, answer));
    create_answer(answer, &todo)
}

/// Creates a todo from what a client sent.
///
/// An empty title is a 400 before anything is made. Otherwise a todo is made
/// with a new identifier at the current instant and handed to `register`;
/// every failure of the repository is a 400. Where the store's contents
/// decide, the only such failure is that the store does not accept the
/// identifier that was drawn.
pub fn new<R: TodoRepository>(repo: &mut R, details: NewTodoDto) -> (r: Result<TodoDto, Status>)
    ensures
        r matches Err(status) ==> status == Status::BadRequest,
        !valid_title(details.title@) ==> r is Err && *final(repo) == *old(repo),
        valid_title(details.title@) ==> exists|todo: Todo, answer: Result<(), TodoError>|
            todo@ == TodoView::created(
                todo.uid,
                details.title@,
                details.completed,
                todo.created_at,
            ) && repository_adds(*old(repo), todo, answer) && dto_outcome(r) == answer_to_create(
                answer,
                todo@,
            ),
        r matches Ok(dto) ==> dto@ == dto_of(
            TodoView::created(dto.uid, details.title@, details.completed, dto.created_at),
        ),
        final(repo).dependable() == old(repo).dependable(),
        old(repo).dependable() ==> match r {
            Ok(dto) => {
                let todo = TodoView::created(
                    dto.uid,
                    details.title@,
                    details.completed,
                    dto.created_at,
                );
                &&& reads_back(dto.uid)
                &&& create_response(old(repo).state(), todo) is Ok
                &&& final(repo).state().is_addition_to(old(repo).state(), todo.to_insert())
            },
            Err(_) => {
                &&& final(repo).state() == old(repo).state()
                &&& valid_title(details.title@) ==> exists|uid: u128|
                    !old(repo).state().accepts(ulid_text(uid))
            },
        },
{
    if !is_valid_title(details.title.as_str()) {
        return Err(Status::BadRequest);
    }
    let new_todo = Todo::new(details.title, details.completed);
    let ghost made = new_todo;
    let r = register(repo, new_todo);
    proof {
        let answer = choose|answer: Result<(), TodoError>|
            repository_adds(*old(repo), made, answer) && dto_outcome(r) == answer_to_create(
                answer,
                made@,
            );
        assert(repository_adds(*old(repo), made, answer));
        if old(repo).dependable() && r is Err {
            assert(!old(repo).state().accepts(ulid_text(made.uid)));
        }
    }
    r
}

} // verus!
