//! The repository: todos in, todos out, rows underneath.

use vstd::prelude::*;
use crate::data_source::{
    entity_views, source_adds, source_deletes, source_finds, source_lists, source_updates,
    StoreState, TodoDataSource, TodoEntity, TodoEntityInsert, TodoEntityUpdate,
    TodoEntityUpdateView, TodoEntityView,
};
use crate::error::TodoError;
use crate::model::{
    all_read_from_rows, entity_insert, entity_update, todo_of, todo_outcome,
    todos_from_entities, todos_of, todos_outcome, update_of, Todo, TodoDetails, TodoView,
};
use crate::time::{current_time, Timestamp};
use crate::uid::{reads_back, uid_to_string, ulid_text};

verus! {

/// What a lookup gives for what the store found: the todo of the row, or
/// `NotFound` where the store found none.
pub open spec fn found_todo(found: Option<TodoEntityView>) -> Result<TodoView, TodoError> {
    match found {
        Some(row) => todo_of(row),
        None => Err(TodoError::NotFound),
    }
}

/// What a listing gives for what the store answered: the todos of the rows,
/// or the store's own failure.
pub open spec fn listed_todos(answer: Result<Seq<TodoEntityView>, TodoError>) -> Result<
    Seq<TodoView>,
    TodoError,
> {
    match answer {
        Ok(rows) => todos_of(rows),
        Err(e) => Err(e),
    }
}

/// A store's listing as contracts see it.
pub open spec fn rows_outcome(answer: Result<Vec<TodoEntity>, TodoError>) -> Result<
    Seq<TodoEntityView>,
    TodoError,
> {
    match answer {
        Ok(rows) => Ok(entity_views(rows@)),
        Err(e) => Err(e),
    }
}

/// A store's lookup as contracts see it.
pub open spec fn row_outcome(found: Option<TodoEntity>) -> Option<TodoEntityView> {
    match found {
        Some(row) => Some(row@),
        None => None,
    }
}

/// What the repository answers to a listing for what the store answered:
/// the todos of the rows in their order, `Validation` where some row holds
/// no todo, and the store's own failure where it failed.
pub fn listing_of(answer: Result<Vec<TodoEntity>, TodoError>) -> (r: Result<Vec<Todo>, TodoError>)
    ensures
        todos_outcome(r) == listed_todos(rows_outcome(answer)),
        r matches Ok(todos) ==> all_read_from_rows(todos@),
{
    match answer {
        Ok(entities) => todos_from_entities(&entities),
        Err(e) => Err(e),
    }
}

/// What the repository answers to a lookup for what the store found: the
/// todo of the row, `Validation` where the row holds none, and `NotFound`
/// where the store found no row.
pub fn lookup_of(found: Option<TodoEntity>) -> (r: Result<Todo, TodoError>)
    ensures
        todo_outcome(r) == found_todo(row_outcome(found)),
        r matches Ok(todo) ==> todo@.wf() && todo.id is Some,
        r matches Err(e) ==> e == TodoError::NotFound || e == TodoError::Validation,
{
    match found {
        Some(entity) => Todo::from_entity(&entity),
        None => Err(TodoError::NotFound),
    }
}

/// What the repository answers to a request that writes, for what the store
/// answered: the same, so that no failure of the store is lost.
pub fn handed_on(answer: Result<(), TodoError>) -> (r: Result<(), TodoError>)
    ensures
        r == answer,
{
    match answer {
        Ok(done) => Ok(done),
        Err(e) => Err(e),
    }
}

impl StoreState {
    /// `self` is what `before` became when the todo under `uid` got the
    /// title `title` and the completion `completed`: its rows were revised at
    /// some instant, and stamped as completed at some instant exactly when
    /// `completed` holds.
    pub open spec fn is_revision_of(
        self,
        before: StoreState,
        uid: Seq<char>,
        title: Seq<char>,
        completed: bool,
    ) -> bool {
        &&& self.find(uid) matches Some(row)
        &&& row.completed_at is Some <==> completed
        &&& self.is_update_of(
            before,
            uid,
            TodoEntityUpdateView { title, completed, completed_at: row.completed_at },
        )
    }
}

/// A repository of todos.
///
/// As with a data source, a repository over a store whose contents contracts
/// can speak of says so with `dependable`, and every operation then does
/// exactly what the model says.
pub trait TodoRepository {
    /// The contents of the store underneath.
    open spec fn state(&self) -> StoreState {
        StoreState::empty()
    }

    /// Every answer of the repository is decided by the store's contents
    /// alone.
    open spec fn dependable(&self) -> bool {
        false
    }

    /// All todos, in the order of the store. One row that holds no todo
    /// fails the whole listing with `Validation`.
    fn get_all(&self) -> (r: Result<Vec<Todo>, TodoError>)
        ensures
            self.dependable() ==> todos_outcome(r) == todos_of(self.state().rows),
    ;

    /// The todo under `id`: `NotFound` where the store has none,
    /// `Validation` where its row holds no todo.
    fn get_by_id(&self, id: u128) -> (r: Result<Todo, TodoError>)
        ensures
            self.dependable() ==> todo_outcome(r) == found_todo(self.state().find(ulid_text(id))),
    ;

    /// Removes the todo under `id`. Removing what is not there succeeds.
    fn delete_by_id(&mut self, id: u128) -> (r: Result<(), TodoError>)
        ensures
            final(self).dependable() == old(self).dependable(),
            old(self).dependable() ==> r is Ok,
            old(self).dependable() ==> final(self).state() == old(self).state().deleted(
                ulid_text(id),
            ),
    ;

    /// Gives the todo under `id` a new title and completion. Completing it
    /// stamps it with the current instant, reopening it clears the stamp.
    /// Fails with `NotFound` where the store has no such todo.
    fn update(&mut self, id: u128, details: TodoDetails) -> (r: Result<(), TodoError>)
        ensures
            final(self).dependable() == old(self).dependable(),
            old(self).dependable() ==> match r {
                Ok(_) => {
                    &&& old(self).state().has_uid(ulid_text(id))
                    &&& final(self).state().is_revision_of(
                        old(self).state(),
                        ulid_text(id),
                        details.title@,
                        details.completed,
                    )
                },
                Err(e) => {
                    &&& e == TodoError::NotFound
                    &&& !old(self).state().has_uid(ulid_text(id))
                    &&& final(self).state() == old(self).state()
                },
            },
    ;

    /// Stores a new todo under the text of its identifier, which reads back
    /// as the identifier. The store refuses a todo whose identifier is taken.
    fn add(&mut self, todo: &Todo) -> (r: Result<(), TodoError>)
        ensures
            final(self).dependable() == old(self).dependable(),
            old(self).dependable() ==> reads_back(todo.uid),
            old(self).dependable() ==> match r {
                Ok(_) => {
                    &&& old(self).state().accepts(ulid_text(todo.uid))
                    &&& final(self).state().is_addition_to(old(self).state(), todo@.to_insert())
                },
                Err(e) => {
                    &&& e == TodoError::Persistence
                    &&& !old(self).state().accepts(ulid_text(todo.uid))
                    &&& final(self).state() == old(self).state()
                },
            },
    ;
}

/// `answer` is what `repo` answers to a listing.
pub open spec fn repository_lists<R: TodoRepository>(
    repo: &R,
    answer: Result<Vec<Todo>, TodoError>,
) -> bool {
    call_ensures(R::get_all, (repo,), answer)
}

/// `answer` is what `repo` answers to a lookup of `id`.
pub open spec fn repository_finds<R: TodoRepository>(
    repo: &R,
    id: u128,
    answer: Result<Todo, TodoError>,
) -> bool {
    call_ensures(R::get_by_id, (repo, id), answer)
}

/// `answer` is what `repo` answers when it is asked to store `todo`.
pub open spec fn repository_adds<R: TodoRepository>(
    repo: R,
    todo: Todo,
    answer: Result<(), TodoError>,
) -> bool {
    exists|target: &mut R| *target == repo && call_ensures(R::add, (target, &todo), answer)
}

/// `answer` is what `repo` answers when it is asked to delete `id`.
pub open spec fn repository_deletes<R: TodoRepository>(
    repo: R,
    id: u128,
    answer: Result<(), TodoError>,
) -> bool {
    exists|target: &mut R| *target == repo && call_ensures(R::delete_by_id, (target, id), answer)
}

/// `answer` is what `repo` answers when it is asked to give the todo `id`
/// the title and completion of `details`.
pub open spec fn repository_updates<R: TodoRepository>(
    repo: R,
    id: u128,
    details: TodoDetails,
    answer: Result<(), TodoError>,
) -> bool {
    exists|target: &mut R|
        *target == repo && call_ensures(R::update, (target, id, details), answer)
}

/// The repository over a data source: it converts between todos and rows and
/// leaves the storing to the source.
///
/// Whatever the source answers, dependable or not, each operation answers a
/// stated function of that answer: `listing_of` for a listing, `lookup_of`
/// for a lookup, and the source's own answer for a request that writes.
pub struct DataSourceTodoRepository<T: TodoDataSource> {
    data_source: T,
}

impl<T: TodoDataSource> DataSourceTodoRepository<T> {
    /// The data source underneath.
    pub closed spec fn source(&self) -> T {
        self.data_source
    }

    /// A repository over `data_source`.
    pub fn new(data_source: T) -> (repository: Self)
        ensures
            repository.source() == data_source,
            repository.state() == data_source.state(),
            repository.dependable() == data_source.dependable(),
    {
        DataSourceTodoRepository::<T> { data_source }
    }
}

impl<T: TodoDataSource> TodoRepository for DataSourceTodoRepository<T> {
    closed spec fn state(&self) -> StoreState {
        self.data_source.state()
    }

    closed spec fn dependable(&self) -> bool {
        self.data_source.dependable()
    }

    /// Asks the store once and answers with `listing_of` what it answered.
    fn get_all(&self) -> (r: Result<Vec<Todo>, TodoError>)
        ensures
            exists|answer: Result<Vec<TodoEntity>, TodoError>|
                source_lists(&self.source(), answer) && todos_outcome(r) == listed_todos(
                    rows_outcome(answer),
                ),
            r matches Ok(todos) ==> all_read_from_rows(todos@),
    {
        let answer = self.data_source.get_all();
        assert(source_lists(&self.source(), answer));
        listing_of(answer)
    }

    /// Asks the store once and answers with `lookup_of` what it found.
    fn get_by_id(&self, id: u128) -> (r: Result<Todo, TodoError>)
        ensures
            exists|found: Option<TodoEntity>|
                source_finds(&self.source(), id, found) && todo_outcome(r) == found_todo(
                    row_outcome(found),
                ),
            r matches Ok(todo) ==> todo@.wf() && todo.id is Some,
            r matches Err(e) ==> e == TodoError::NotFound || e == TodoError::Validation,
    {
        let found = self.data_source.get_by_id(id);
        assert(source_finds(&self.source(), id, found));
        lookup_of(found)
    }

    /// Asks the store once and hands its answer on.
    fn delete_by_id(&mut self, id: u128) -> (r: Result<(), TodoError>)
        ensures
            source_deletes(old(self).source(), id, r),
    {
        let answer = self.data_source.delete_by_id(id);
        assert(source_deletes(old(self).source(), id, answer));
        handed_on(answer)
    }

    /// Reads the clock, asks the store once for the update that
    /// `entity_update` makes of `details`, and hands its answer on.
    fn update(&mut self, id: u128, details: TodoDetails) -> (r: Result<(), TodoError>)
        ensures
            exists|update: TodoEntityUpdate, now: Timestamp|
                update@ == update_of(details.title@, details.completed, now) && source_updates(
                    old(self).source(),
                    id,
                    update,
                    r,
                ),
    {
        let now = current_time();
        let update = entity_update(details, now);
        let ghost sent = update;
        let answer = self.data_source.update(id, update);
        proof {
            assert(source_updates(old(self).source(), id, sent, answer));
            assert(sent@ == update_of(details.title@, details.completed, now));
            if old(self).dependable() && answer is Ok {
                let uid = ulid_text(id);
                let row = self.state().find(uid).unwrap();
                old(self).state().lemma_find_after_update(uid, sent@, row.updated_at, uid);
            }
        }
        handed_on(answer)
    }

    /// Asks the store once for the row that `entity_insert` makes of `todo`,
    /// and hands its answer on.
    fn add(&mut self, todo: &Todo) -> (r: Result<(), TodoError>)
        ensures
            exists|insert: TodoEntityInsert|
                insert@ == todo@.to_insert() && source_adds(old(self).source(), insert, r),
    {
        let uid = uid_to_string(todo.uid);
        let insert = entity_insert(todo, uid.as_str());
        let answer = self.data_source.add(&insert);
        assert(source_adds(old(self).source(), insert, answer));
        handed_on(answer)
    }
}

} // verus!
