//! A store that keeps its rows in memory.

use vstd::prelude::*;
use crate::data_source::{
    entity_views, StoreState, TodoDataSource, TodoEntity, TodoEntityInsert, TodoEntityUpdate,
    TodoEntityView, LAST_KEY,
};
use crate::error::TodoError;
use crate::time::{current_time, Timestamp};
use crate::uid::{ulid_text, uid_to_string};

verus! {

/// A store that keeps its rows in a vector, in the order in which they came,
/// and hands out the keys 1, 2, 3 and so on.
pub struct InMemoryTodoDataSource {
    rows: Vec<TodoEntity>,
    next_id: i32,
}

impl InMemoryTodoDataSource {
    /// A store without rows.
    pub fn new() -> (store: Self)
        ensures
            store.state() == StoreState::empty(),
            store.dependable(),
    {
        InMemoryTodoDataSource { rows: Vec::new(), next_id: 1 }
    }

    /// The index of the first row that carries the identifier text `uid`.
    fn position(&self, uid: &String) -> (r: Option<usize>)
        ensures
            match r {
                Some(i) => self.state().is_first(uid@, i as int),
                None => !self.state().has_uid(uid@),
            },
    {
        let mut i: usize = 0;
        while i < self.rows.len()
            invariant
                i <= self.rows.len(),
                forall|j: int| 0 <= j < i ==> #[trigger] self.state().rows[j].uid != uid@,
            decreases self.rows.len() - i,
        {
            if self.rows[i].uid == *uid {
                return Some(i);
            }
            i += 1;
        }
        None
    }

    /// Stores a new row whose creation and last update are the instant `now`.
    ///
    /// Succeeds exactly where the store accepts the identifier; a refusal is
    /// a `Persistence` failure and leaves the store as it was.
    pub fn add_at(&mut self, todo: &TodoEntityInsert, now: Timestamp) -> (r: Result<(), TodoError>)
        ensures
            r is Ok <==> old(self).state().accepts(todo@.uid),
            r is Ok ==> final(self).state() == old(self).state().added(todo@, now),
            r matches Err(e) ==> e == TodoError::Persistence,
            r is Err ==> final(self).state() == old(self).state(),
    {
        let uid = todo.uid.to_owned();
        if self.next_id > LAST_KEY {
            return Err(TodoError::Persistence);
        }
        if self.position(&uid).is_some() {
            return Err(TodoError::Persistence);
        }
        let id = self.next_id;
        let row = TodoEntity {
            id,
            uid,
            title: todo.title.to_owned(),
            completed: todo.completed,
            created_at: now,
            completed_at: todo.completed_at,
            updated_at: now,
        };
        self.next_id = id + 1;
        self.rows.push(row);
        assert(final(self).state().rows =~= old(self).state().added(todo@, now).rows);
        Ok(())
    }

    /// Writes `details` into every row of the todo `id` and makes `now` the
    /// instant of their last update.
    ///
    /// Succeeds exactly where some row carries the identifier; otherwise the
    /// failure is `NotFound` and the store stays as it was.
    pub fn update_at(&mut self, id: u128, details: TodoEntityUpdate, now: Timestamp) -> (r: Result<
        (),
        TodoError,
    >)
        ensures
            r is Ok <==> old(self).state().has_uid(ulid_text(id)),
            r is Ok ==> final(self).state() == old(self).state().updated(
                ulid_text(id),
                details@,
                now,
            ),
            r matches Err(e) ==> e == TodoError::NotFound,
            r is Err ==> final(self).state() == old(self).state(),
    {
        let uid = uid_to_string(id);
        let ghost before = self.state();
        let ghost after = before.updated(uid@, details@, now);
        let mut found = false;
        let mut i: usize = 0;
        while i < self.rows.len()
            invariant
                i <= self.rows.len(),
                before.rows.len() == self.rows.len(),
                after == before.updated(uid@, details@, now),
                self.state().next_id == before.next_id,
                forall|j: int| 0 <= j < i ==> (#[trigger] self.rows@[j])@ == after.rows[j],
                forall|j: int|
                    i <= j < self.rows.len() ==> (#[trigger] self.rows@[j])@ == before.rows[j],
                found <==> exists|j: int| 0 <= j < i && #[trigger] before.rows[j].uid == uid@,
            decreases self.rows.len() - i,
        {
            let ghost seen = found;
            assert(self.rows@[i as int]@ == before.rows[i as int]);
            if self.rows[i].uid == uid {
                let row = &self.rows[i];
                let revised = TodoEntity {
                    id: row.id,
                    uid: row.uid.clone(),
                    title: details.title.clone(),
                    completed: details.completed,
                    created_at: row.created_at,
                    completed_at: details.completed_at,
                    updated_at: now,
                };
                assert(revised@ == after.rows[i as int]);
                self.rows[i] = revised;
                found = true;
            }
            assert(self.rows@[i as int]@ == after.rows[i as int]);
            assert(found <==> seen || before.rows[i as int].uid == uid@);
            i += 1;
        }
        assert(self.state().rows =~= after.rows);
        if found {
            Ok(())
        } else {
            assert(after.rows =~= before.rows);
            Err(TodoError::NotFound)
        }
    }
}

impl TodoDataSource for InMemoryTodoDataSource {
    closed spec fn state(&self) -> StoreState {
        StoreState { rows: entity_views(self.rows@), next_id: self.next_id as int }
    }

    open spec fn dependable(&self) -> bool {
        true
    }

    fn add(&mut self, todo: &TodoEntityInsert) -> (r: Result<(), TodoError>) {
        let now = current_time();
        self.add_at(todo, now)
    }

    fn get_all(&self) -> (r: Result<Vec<TodoEntity>, TodoError>) {
        let mut rows: Vec<TodoEntity> = Vec::new();
        let mut i: usize = 0;
        while i < self.rows.len()
            invariant
                i <= self.rows.len(),
                rows@.len() == i,
                forall|j: int| 0 <= j < i ==> (#[trigger] rows@[j])@ == self.rows@[j]@,
            decreases self.rows.len() - i,
        {
            rows.push(self.rows[i].clone());
            i += 1;
        }
        assert(entity_views(rows@) =~= self.state().rows);
        Ok(rows)
    }

    fn get_by_id(&self, id: u128) -> (r: Option<TodoEntity>) {
        let uid = uid_to_string(id);
        match self.position(&uid) {
            Some(i) => {
                proof {
                    self.state().lemma_find_is_first(uid@, i as int);
                }
                Some(self.rows[i].clone())
            },
            None => None,
        }
    }

    fn delete_by_id(&mut self, id: u128) -> (r: Result<(), TodoError>) {
        let uid = uid_to_string(id);
        let ghost before = self.state();
        let mut kept: Vec<TodoEntity> = Vec::new();
        let mut i: usize = 0;
        while i < self.rows.len()
            invariant
                i <= self.rows.len(),
                self.state() == before,
                entity_views(kept@) == (StoreState {
                    rows: before.rows.take(i as int),
                    next_id: before.next_id,
                }).deleted(uid@).rows,
            decreases self.rows.len() - i,
        {
            proof {
                assert(before.rows.take(i + 1) =~= before.rows.take(i as int).push(
                    before.rows[i as int],
                ));
                before.rows.take(i as int).lemma_filter_push(
                    before.rows[i as int],
                    |e: TodoEntityView| e.uid != uid@,
                );
            }
            if !(self.rows[i].uid == uid) {
                kept.push(self.rows[i].clone());
            }
            i += 1;
        }
        assert(before.rows.take(i as int) =~= before.rows);
        self.rows = kept;
        Ok(())
    }

    fn update(&mut self, id: u128, details: TodoEntityUpdate) -> (r: Result<(), TodoError>) {
        let now = current_time();
        let ghost uid = ulid_text(id);
        let ghost update = details@;
        let r = self.update_at(id, details, now);
        proof {
            old(self).state().lemma_find_after_update(uid, update, now, uid);
        }
        r
    }
}

} // verus!
