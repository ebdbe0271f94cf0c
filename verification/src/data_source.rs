//! Stored rows, the mathematical model of a store, and the contract of a
//! data source that keeps one.

use vstd::prelude::*;
use crate::error::TodoError;
use crate::time::Timestamp;
use crate::uid::ulid_text;

verus! {

/// A stored row as contracts see it.
#[verifier::ext_equal]
pub struct TodoEntityView {
    pub id: int,
    pub uid: Seq<char>,
    pub title: Seq<char>,
    pub completed: bool,
    pub created_at: Timestamp,
    pub completed_at: Option<Timestamp>,
    pub updated_at: Timestamp,
}

/// A row of the store, shaped as the storage schema: the key that the store
/// assigned, the identifier in its text form, and the fields of the todo.
#[derive(Debug, PartialEq, Eq)]
pub struct TodoEntity {
    pub id: i32,
    pub uid: String,
    pub title: String,
    pub completed: bool,
    pub created_at: Timestamp,
    pub completed_at: Option<Timestamp>,
    pub updated_at: Timestamp,
}

impl View for TodoEntity {
    type V = TodoEntityView;

    open spec fn view(&self) -> TodoEntityView {
        TodoEntityView {
            id: self.id as int,
            uid: self.uid@,
            title: self.title@,
            completed: self.completed,
            created_at: self.created_at,
            completed_at: self.completed_at,
            updated_at: self.updated_at,
        }
    }
}

impl Clone for TodoEntity {
    fn clone(&self) -> (copy: TodoEntity)
        ensures
            copy == *self,
    {
        TodoEntity {
            id: self.id,
            uid: self.uid.clone(),
            title: self.title.clone(),
            completed: self.completed,
            created_at: self.created_at,
            completed_at: self.completed_at,
            updated_at: self.updated_at,
        }
    }
}

/// The rows of a vector as contracts see them.
pub open spec fn entity_views(rows: Seq<TodoEntity>) -> Seq<TodoEntityView> {
    rows.map_values(|e: TodoEntity| e@)
}

/// What a new row is made from, as contracts see it.
#[verifier::ext_equal]
pub struct TodoEntityInsertView {
    pub uid: Seq<char>,
    pub title: Seq<char>,
    pub completed: bool,
    pub completed_at: Option<Timestamp>,
}

/// What a caller hands to the store for a new row. The store assigns the key
/// and the instants of creation and of the last update.
#[derive(Clone, Copy, Debug, PartialEq, Eq)]
pub struct TodoEntityInsert<'a> {
    pub uid: &'a str,
    pub title: &'a str,
    pub completed: bool,
    pub completed_at: Option<Timestamp>,
}

impl<'a> View for TodoEntityInsert<'a> {
    type V = TodoEntityInsertView;

    open spec fn view(&self) -> TodoEntityInsertView {
        TodoEntityInsertView {
            uid: self.uid@,
            title: self.title@,
            completed: self.completed,
            completed_at: self.completed_at,
        }
    }
}

/// The fields that an update writes, as contracts see them.
#[verifier::ext_equal]
pub struct TodoEntityUpdateView {
    pub title: Seq<char>,
    pub completed: bool,
    pub completed_at: Option<Timestamp>,
}

/// The fields that an update writes into a row. The store adds the instant of
/// the update itself.
#[derive(Debug, PartialEq, Eq)]
pub struct TodoEntityUpdate {
    pub title: String,
    pub completed: bool,
    pub completed_at: Option<Timestamp>,
}

impl Clone for TodoEntityUpdate {
    fn clone(&self) -> (copy: TodoEntityUpdate)
        ensures
            copy == *self,
    {
        TodoEntityUpdate {
            title: self.title.clone(),
            completed: self.completed,
            completed_at: self.completed_at,
        }
    }
}

impl View for TodoEntityUpdate {
    type V = TodoEntityUpdateView;

    open spec fn view(&self) -> TodoEntityUpdateView {
        TodoEntityUpdateView {
            title: self.title@,
            completed: self.completed,
            completed_at: self.completed_at,
        }
    }
}

impl TodoEntityView {
    /// The row after an update at the instant `now`: title, completion and
    /// the instant of the last update change, everything else stays.
    pub open spec fn revised(self, update: TodoEntityUpdateView, now: Timestamp) -> TodoEntityView {
        TodoEntityView {
            title: update.title,
            completed: update.completed,
            completed_at: update.completed_at,
            updated_at: now,
            ..self
        }
    }
}

/// The largest key that a store assigns.
pub const LAST_KEY: i32 = 2147483646;

/// The contents of a store: its rows in the order in which it lists them, and
/// the key that the next new row gets.
#[verifier::ext_equal]
pub struct StoreState {
    pub rows: Seq<TodoEntityView>,
    pub next_id: int,
}

impl StoreState {
    /// A store without rows, whose first key is 1.
    pub open spec fn empty() -> StoreState {
        StoreState { rows: Seq::empty(), next_id: 1 }
    }

    /// Some row carries the identifier text `uid`.
    pub open spec fn has_uid(self, uid: Seq<char>) -> bool {
        exists|i: int| 0 <= i < self.rows.len() && #[trigger] self.rows[i].uid == uid
    }

    /// Row `i` carries `uid` and no row before it does.
    pub open spec fn is_first(self, uid: Seq<char>, i: int) -> bool {
        &&& 0 <= i < self.rows.len()
        &&& self.rows[i].uid == uid
        &&& forall|j: int| 0 <= j < i ==> #[trigger] self.rows[j].uid != uid
    }

    /// The first row that carries `uid`, if there is one.
    pub open spec fn find(self, uid: Seq<char>) -> Option<TodoEntityView> {
        if self.has_uid(uid) {
            Some(self.rows[choose|i: int| self.is_first(uid, i)])
        } else {
            None
        }
    }

    /// The store takes a new row under `uid`: no row carries it yet, and a
    /// key is left to assign.
    pub open spec fn accepts(self, uid: Seq<char>) -> bool {
        !self.has_uid(uid) && self.next_id <= LAST_KEY
    }

    /// The row that the store makes of `todo` at the instant `now`.
    pub open spec fn new_row(self, todo: TodoEntityInsertView, now: Timestamp) -> TodoEntityView {
        TodoEntityView {
            id: self.next_id,
            uid: todo.uid,
            title: todo.title,
            completed: todo.completed,
            created_at: now,
            completed_at: todo.completed_at,
            updated_at: now,
        }
    }

    /// The store after it took `todo` at the instant `now`.
    pub open spec fn added(self, todo: TodoEntityInsertView, now: Timestamp) -> StoreState {
        StoreState { rows: self.rows.push(self.new_row(todo, now)), next_id: self.next_id + 1 }
    }

    /// The store without the rows that carry `uid`.
    pub open spec fn deleted(self, uid: Seq<char>) -> StoreState {
        StoreState {
            rows: self.rows.filter(|e: TodoEntityView| e.uid != uid),
            next_id: self.next_id,
        }
    }

    /// The store after the rows that carry `uid` were revised at the instant
    /// `now`.
    pub open spec fn updated(
        self,
        uid: Seq<char>,
        update: TodoEntityUpdateView,
        now: Timestamp,
    ) -> StoreState {
        StoreState {
            rows: self.rows.map_values(
                |e: TodoEntityView| if e.uid == uid { e.revised(update, now) } else { e },
            ),
            next_id: self.next_id,
        }
    }

    /// `self` is what `before` became by taking `todo` at some instant.
    pub open spec fn is_addition_to(self, before: StoreState, todo: TodoEntityInsertView) -> bool {
        self.rows.len() > 0 && self == before.added(todo, self.rows.last().created_at)
    }

    /// `self` is what `before` became by an update of the rows under `uid` at
    /// some instant.
    pub open spec fn is_update_of(
        self,
        before: StoreState,
        uid: Seq<char>,
        update: TodoEntityUpdateView,
    ) -> bool {
        self.find(uid) matches Some(row) && self == before.updated(uid, update, row.updated_at)
    }

    /// No two rows share an identifier or a key, and every key was assigned
    /// before the next one.
    pub open spec fn wf(self) -> bool {
        &&& 1 <= self.next_id <= LAST_KEY + 1
        &&& forall|i: int|
            0 <= i < self.rows.len() ==> 1 <= (#[trigger] self.rows[i]).id < self.next_id
        &&& forall|i: int, j: int|
            0 <= i < j < self.rows.len() ==> (#[trigger] self.rows[i]).uid != (
            #[trigger] self.rows[j]).uid
        &&& forall|i: int, j: int|
            0 <= i < j < self.rows.len() ==> (#[trigger] self.rows[i]).id != (
            #[trigger] self.rows[j]).id
    }
}

impl StoreState {
    /// The first row under an identifier is the one that `find` gives.
    pub proof fn lemma_find_is_first(self, uid: Seq<char>, i: int)
        requires
            self.is_first(uid, i),
        ensures
            self.has_uid(uid),
            self.find(uid) == Some(self.rows[i]),
    {
        let k = choose|k: int| self.is_first(uid, k);
        assert(self.is_first(uid, k));
        if k < i {
            assert(self.rows[k].uid != uid);
        }
        if i < k {
            assert(self.rows[i].uid != uid);
        }
    }

    /// Where some row carries an identifier, one of them is the first.
    pub proof fn lemma_first_exists(self, uid: Seq<char>) -> (i: int)
        requires
            self.has_uid(uid),
        ensures
            self.is_first(uid, i),
            self.find(uid) == Some(self.rows[i]),
    {
        let w = choose|w: int| 0 <= w < self.rows.len() && #[trigger] self.rows[w].uid == uid;
        let i = self.first_up_to(uid, w);
        self.lemma_find_is_first(uid, i);
        i
    }

    /// An update keeps every row in its place and under its identifier, so
    /// a lookup after it finds the revised form of what it found before.
    pub proof fn lemma_find_after_update(
        self,
        uid: Seq<char>,
        update: TodoEntityUpdateView,
        now: Timestamp,
        other: Seq<char>,
    )
        ensures
            self.updated(uid, update, now).has_uid(other) == self.has_uid(other),
            self.updated(uid, update, now).find(other) == match self.find(other) {
                Some(row) => Some(if other == uid { row.revised(update, now) } else { row }),
                None => None,
            },
    {
        let after = self.updated(uid, update, now);
        assert forall|i: int| 0 <= i < self.rows.len() implies (#[trigger] after.rows[i]).uid
            == self.rows[i].uid by {}
        if self.has_uid(other) {
            let w = choose|w: int| 0 <= w < self.rows.len() && #[trigger] self.rows[w].uid == other;
            assert(after.rows[w].uid == other);
            let i = self.lemma_first_exists(other);
            assert(after.is_first(other, i)) by {
                assert forall|j: int| 0 <= j < i implies #[trigger] after.rows[j].uid != other by {
                    assert(self.rows[j].uid != other);
                }
            }
            after.lemma_find_is_first(other, i);
        } else {
            if after.has_uid(other) {
                let w = choose|w: int|
                    0 <= w < after.rows.len() && #[trigger] after.rows[w].uid == other;
                assert(self.rows[w].uid == other);
            }
        }
    }

    /// After a delete no row carries the identifier.
    pub proof fn lemma_deleted_is_gone(self, uid: Seq<char>)
        ensures
            !self.deleted(uid).has_uid(uid),
            self.deleted(uid).find(uid) is None,
    {
        let kept = self.deleted(uid).rows;
        assert forall|i: int| 0 <= i < kept.len() implies (#[trigger] kept[i]).uid != uid by {
            self.rows.lemma_filter_pred(|e: TodoEntityView| e.uid != uid, i);
        }
    }

    /// A delete of an identifier that no row carries leaves the store as it
    /// was.
    pub proof fn lemma_delete_of_absent(self, uid: Seq<char>)
        requires
            !self.has_uid(uid),
        ensures
            self.deleted(uid) == self,
        decreases self.rows.len(),
    {
        reveal(Seq::filter);
        if self.rows.len() > 0 {
            let shorter = StoreState { rows: self.rows.drop_last(), next_id: self.next_id };
            assert forall|i: int| 0 <= i < shorter.rows.len() implies (
            #[trigger] shorter.rows[i]).uid != uid by {
                assert(self.rows[i].uid != uid);
            }
            shorter.lemma_delete_of_absent(uid);
            assert(self.rows.last().uid != uid) by {
                assert(self.rows[self.rows.len() - 1].uid != uid);
            }
            assert(self.deleted(uid).rows =~= self.rows);
        } else {
            assert(self.deleted(uid).rows =~= self.rows);
        }
    }

    /// A new row is found under its identifier, and every other lookup finds
    /// what it found before.
    pub proof fn lemma_find_after_add(
        self,
        todo: TodoEntityInsertView,
        now: Timestamp,
        other: Seq<char>,
    )
        requires
            !self.has_uid(todo.uid),
        ensures
            self.added(todo, now).find(other) == if other == todo.uid {
                Some(self.new_row(todo, now))
            } else {
                self.find(other)
            },
    {
        let after = self.added(todo, now);
        let n = self.rows.len() as int;
        assert forall|i: int| 0 <= i < n implies (#[trigger] after.rows[i]) == self.rows[i] by {}
        if other == todo.uid {
            assert(after.is_first(other, n)) by {
                assert forall|j: int| 0 <= j < n implies #[trigger] after.rows[j].uid != other by {
                    assert(self.rows[j].uid != other);
                }
            }
            after.lemma_find_is_first(other, n);
        } else if self.has_uid(other) {
            let i = self.lemma_first_exists(other);
            assert(after.is_first(other, i)) by {
                assert forall|j: int| 0 <= j < i implies #[trigger] after.rows[j].uid != other by {
                    assert(self.rows[j].uid != other);
                }
            }
            after.lemma_find_is_first(other, i);
        } else {
            if after.has_uid(other) {
                let w = choose|w: int|
                    0 <= w < after.rows.len() && #[trigger] after.rows[w].uid == other;
                if w < n {
                    assert(self.rows[w].uid == other);
                }
            }
        }
    }

    proof fn first_up_to(self, uid: Seq<char>, w: int) -> (i: int)
        requires
            0 <= w < self.rows.len(),
            self.rows[w].uid == uid,
        ensures
            self.is_first(uid, i),
        decreases w,
    {
        if forall|j: int| 0 <= j < w ==> #[trigger] self.rows[j].uid != uid {
            w
        } else {
            let j = choose|j: int| 0 <= j < w && #[trigger] self.rows[j].uid == uid;
            self.first_up_to(uid, j)
        }
    }
}

/// A store of todo rows.
///
/// A store that keeps its rows where contracts can speak of them says so with
/// `dependable`, and each operation on it then does exactly what the model
/// says. A store whose answers also depend on something else (a connection
/// that may be lost) leaves `dependable` false; nothing is promised of what it
/// returns, and its callers state what they do with each answer.
pub trait TodoDataSource {
    /// The contents of the store.
    open spec fn state(&self) -> StoreState {
        StoreState::empty()
    }

    /// Every answer of the store is decided by its contents alone.
    open spec fn dependable(&self) -> bool {
        false
    }

    /// Stores a new row. The store assigns its key and takes the current
    /// instant for its creation and its last update. It refuses a row whose
    /// identifier is taken, and any row once its keys are used up.
    fn add(&mut self, todo: &TodoEntityInsert) -> (r: Result<(), TodoError>)
        ensures
            final(self).dependable() == old(self).dependable(),
            old(self).dependable() ==> match r {
                Ok(_) => {
                    &&& old(self).state().accepts(todo@.uid)
                    &&& final(self).state().is_addition_to(old(self).state(), todo@)
                },
                Err(e) => {
                    &&& e == TodoError::Persistence
                    &&& !old(self).state().accepts(todo@.uid)
                    &&& final(self).state() == old(self).state()
                },
            },
    ;

    /// Lists every row.
    fn get_all(&self) -> (r: Result<Vec<TodoEntity>, TodoError>)
        ensures
            self.dependable() ==> (r matches Ok(rows) && entity_views(rows@) == self.state().rows),
    ;

    /// Looks a row up by the identifier of its todo. That no row has it is an
    /// answer, not a failure.
    fn get_by_id(&self, id: u128) -> (r: Option<TodoEntity>)
        ensures
            self.dependable() ==> match r {
                Some(row) => self.state().find(ulid_text(id)) == Some(row@),
                None => self.state().find(ulid_text(id)) is None,
            },
    ;

    /// Removes the row of a todo. Removing what is not there succeeds.
    fn delete_by_id(&mut self, id: u128) -> (r: Result<(), TodoError>)
        ensures
            final(self).dependable() == old(self).dependable(),
            old(self).dependable() ==> r is Ok,
            old(self).dependable() ==> final(self).state() == old(self).state().deleted(
                ulid_text(id),
            ),
    ;

    /// Writes `details` into the row of a todo and takes the current instant
    /// for its last update. Fails with `NotFound` where no row has the
    /// identifier.
    fn update(&mut self, id: u128, details: TodoEntityUpdate) -> (r: Result<(), TodoError>)
        ensures
            final(self).dependable() == old(self).dependable(),
            old(self).dependable() ==> match r {
                Ok(_) => {
                    &&& old(self).state().has_uid(ulid_text(id))
                    &&& final(self).state().is_update_of(old(self).state(), ulid_text(id), details@)
                },
                Err(e) => {
                    &&& e == TodoError::NotFound
                    &&& !old(self).state().has_uid(ulid_text(id))
                    &&& final(self).state() == old(self).state()
                },
            },
    ;
}

/// `answer` is what `source` answers to a listing.
pub open spec fn source_lists<T: TodoDataSource>(
    source: &T,
    answer: Result<Vec<TodoEntity>, TodoError>,
) -> bool {
    call_ensures(T::get_all, (source,), answer)
}

/// `found` is what `source` answers to a lookup of `id`.
pub open spec fn source_finds<T: TodoDataSource>(
    source: &T,
    id: u128,
    found: Option<TodoEntity>,
) -> bool {
    call_ensures(T::get_by_id, (source, id), found)
}

/// `answer` is what `source` answers when it is asked to store `todo`.
pub open spec fn source_adds<T: TodoDataSource>(
    source: T,
    todo: TodoEntityInsert,
    answer: Result<(), TodoError>,
) -> bool {
    exists|target: &mut T| *target == source && call_ensures(T::add, (target, &todo), answer)
}

/// `answer` is what `source` answers when it is asked to delete `id`.
pub open spec fn source_deletes<T: TodoDataSource>(
    source: T,
    id: u128,
    answer: Result<(), TodoError>,
) -> bool {
    exists|target: &mut T|
        *target == source && call_ensures(T::delete_by_id, (target, id), answer)
}

/// `answer` is what `source` answers when it is asked to write `details`
/// into the row of `id`.
pub open spec fn source_updates<T: TodoDataSource>(
    source: T,
    id: u128,
    details: TodoEntityUpdate,
    answer: Result<(), TodoError>,
) -> bool {
    exists|target: &mut T|
        *target == source && call_ensures(T::update, (target, id, details), answer)
}

/// What an update reports when the store says how many rows it changed:
/// success where it changed one or more, `NotFound` where it changed none.
pub fn update_outcome(rows_changed: usize) -> (r: Result<(), TodoError>)
    ensures
        r == (if rows_changed > 0 { Ok::<(), TodoError>(()) } else { Err(TodoError::NotFound) }),
{
    if rows_changed > 0 {
        Ok(())
    } else {
        Err(TodoError::NotFound)
    }
}

} // verus!
