//! What holds of the service as a whole, over every store and every request.
//!
//! Each law speaks of the model that the contracts of the handlers, the
//! repository and the data source are written in, so it holds of every
//! dependable stack of them.

use vstd::prelude::*;
use crate::data_source::{StoreState, TodoEntityInsertView, TodoEntityUpdateView, TodoEntityView};
use crate::dto::{dto_of, TodoDtoView};
use crate::model::{todo_of, todos_of, update_of, valid_title, TodoView};
use crate::time::Timestamp;
use crate::uid::{canonical, reads_back, ulid_parse, ulid_text};
use crate::web::{
    after_delete, create_response, delete_response, dtos_of, fetch_response, list_response,
    update_response, Status,
};

verus! {

/// A todo that was created and stored is fetched under its identifier, with
/// the title and the completion it was created with, with an instant of
/// completion exactly when it was created completed, and with one instant
/// for its creation and its last update.
pub proof fn lemma_created_todo_is_fetched(
    state: StoreState,
    uid: u128,
    title: Seq<char>,
    completed: bool,
    made_at: Timestamp,
    stored_at: Timestamp,
)
    requires
        valid_title(title),
        reads_back(uid),
        state.accepts(ulid_text(uid)),
    ensures
        ({
            let todo = TodoView::created(uid, title, completed, made_at);
            let after = state.added(todo.to_insert(), stored_at);
            &&& create_response(state, todo) == Ok::<TodoDtoView, Status>(dto_of(todo))
            &&& fetch_response(after, ulid_text(uid)) matches Ok(dto)
            &&& dto.uid == uid
            &&& dto.title == title
            &&& dto.completed == completed
            &&& dto.completed_at is None <==> !completed
            &&& dto.created_at == dto.updated_at
        }),
{
    let todo = TodoView::created(uid, title, completed, made_at);
    state.lemma_find_after_add(todo.to_insert(), stored_at, ulid_text(uid));
}

/// After a request to delete a todo, a fetch under the same identifier is
/// answered with 404.
pub proof fn lemma_deleted_todo_is_not_found(state: StoreState, id: Seq<char>)
    ensures
        fetch_response(after_delete(state, id), id) == Err::<TodoDtoView, Status>(Status::NotFound),
{
    match ulid_parse(id) {
        Some(uid) => {
            state.lemma_deleted_is_gone(ulid_text(uid));
        },
        None => {},
    }
}

/// A request to delete a todo that the store does not hold is answered with
/// success and leaves the store as it was.
pub proof fn lemma_delete_of_absent_todo(state: StoreState, uid: u128, id: Seq<char>)
    requires
        ulid_parse(id) == Some(uid),
        !state.has_uid(ulid_text(uid)),
    ensures
        delete_response(id) == Ok::<(), Status>(()),
        after_delete(state, id) == state,
{
    state.lemma_delete_of_absent(ulid_text(uid));
}

/// An update of a todo that could be fetched shows in the next fetch: the
/// new title and completion, the instant of the update, and an instant of
/// completion exactly when the todo is now completed. The identifier and the
/// instant of creation stay. `stamped_at` is the instant that the repository
/// read for the completion, `now` the one that the store read for the update.
pub proof fn lemma_update_is_fetched(
    state: StoreState,
    id: Seq<char>,
    title: Seq<char>,
    completed: bool,
    stamped_at: Timestamp,
    now: Timestamp,
)
    requires
        fetch_response(state, id) is Ok,
        valid_title(title),
    ensures
        ({
            let uid = ulid_text(ulid_parse(id).unwrap());
            let before = fetch_response(state, id).unwrap();
            let after = state.updated(uid, update_of(title, completed, stamped_at), now);
            &&& update_response(state, id, title) == Ok::<(), Status>(())
            &&& fetch_response(after, id) matches Ok(dto)
            &&& dto.uid == before.uid
            &&& dto.created_at == before.created_at
            &&& dto.title == title
            &&& dto.completed == completed
            &&& dto.completed_at == if completed { Some(stamped_at) } else { None::<Timestamp> }
            &&& dto.updated_at == now
        }),
{
    let uid = ulid_text(ulid_parse(id).unwrap());
    state.lemma_find_after_update(uid, update_of(title, completed, stamped_at), now, uid);
}

/// Completing a todo gives it an instant of completion that is not before
/// its creation, and reopening it clears that instant, as long as the clock
/// did not run backwards between the creation and the update.
pub proof fn lemma_completion_follows_update(
    state: StoreState,
    id: Seq<char>,
    title: Seq<char>,
    completed: bool,
    stamped_at: Timestamp,
    now: Timestamp,
)
    requires
        fetch_response(state, id) matches Ok(before) && before.created_at.is_at_or_before(
            stamped_at,
        ),
        valid_title(title),
    ensures
        ({
            let uid = ulid_text(ulid_parse(id).unwrap());
            let after = state.updated(uid, update_of(title, completed, stamped_at), now);
            &&& fetch_response(after, id) matches Ok(dto)
            &&& completed ==> (dto.completed_at matches Some(at)
                && dto.created_at.is_at_or_before(at))
            &&& !completed ==> dto.completed_at is None
        }),
{
    lemma_update_is_fetched(state, id, title, completed, stamped_at, now);
}

/// An update moves the instant of the last update strictly forward, as long
/// as the store's clock moved strictly forward since the update before.
pub proof fn lemma_update_advances_updated_at(
    state: StoreState,
    id: Seq<char>,
    title: Seq<char>,
    completed: bool,
    stamped_at: Timestamp,
    now: Timestamp,
)
    requires
        fetch_response(state, id) matches Ok(before) && before.updated_at.is_before(now),
        valid_title(title),
    ensures
        ({
            let uid = ulid_text(ulid_parse(id).unwrap());
            let before = fetch_response(state, id).unwrap();
            let after = state.updated(uid, update_of(title, completed, stamped_at), now);
            fetch_response(after, id) matches Ok(dto) && before.updated_at.is_before(dto.updated_at)
        }),
{
    lemma_update_is_fetched(state, id, title, completed, stamped_at, now);
}

/// A fetch under a text that is no identifier is answered with 404, whatever
/// the store holds.
pub proof fn lemma_malformed_id_is_not_found(state: StoreState, id: Seq<char>)
    requires
        ulid_parse(id) is None,
    ensures
        fetch_response(state, id) == Err::<TodoDtoView, Status>(Status::NotFound),
{
}

/// A listing of a store without rows is answered with an empty list.
pub proof fn lemma_empty_store_lists_nothing(state: StoreState)
    requires
        state.rows.len() == 0,
    ensures
        list_response(state) == Ok::<Seq<TodoDtoView>, Status>(Seq::empty()),
{
    let todos = todos_of(state.rows).unwrap();
    assert(dtos_of(todos) =~= Seq::<TodoDtoView>::empty());
}

/// From a row to a todo and back to what the store is handed for it: the
/// title, the completion and its instant come back as they were, and so does
/// the identifier text where the row carries it in the form in which
/// identifiers are written. The store's key is not part of the way back.
pub proof fn lemma_entity_round_trip(row: TodoEntityView)
    requires
        row.valid(),
        canonical(row.uid),
    ensures
        todo_of(row) is Ok,
        ({
            let back = todo_of(row).unwrap().to_insert();
            &&& back.uid == row.uid
            &&& back.title == row.title
            &&& back.completed == row.completed
            &&& back.completed_at == row.completed_at
        }),
{
}

/// From a todo to the row that the store makes of it and back: the
/// identifier, the title, the completion and its instant come back as they
/// were.
pub proof fn lemma_todo_round_trip(state: StoreState, todo: TodoView, now: Timestamp)
    requires
        todo.wf(),
        reads_back(todo.uid),
    ensures
        ({
            let row = state.new_row(todo.to_insert(), now);
            &&& todo_of(row) matches Ok(back)
            &&& back.uid == todo.uid
            &&& back.title == todo.title
            &&& back.completed == todo.completed
            &&& back.completed_at == todo.completed_at
        }),
{
}

/// A store without rows is well formed.
pub proof fn lemma_empty_store_is_wf()
    ensures
        StoreState::empty().wf(),
{
}

/// A store that accepts a new row stays well formed when it takes it: the
/// row gets a key and an identifier that no other row has.
pub proof fn lemma_add_keeps_wf(state: StoreState, todo: TodoEntityInsertView, now: Timestamp)
    requires
        state.wf(),
        state.accepts(todo.uid),
    ensures
        state.added(todo, now).wf(),
{
    let after = state.added(todo, now);
    let n = state.rows.len() as int;
    assert forall|i: int, j: int| 0 <= i < j < after.rows.len() implies (
    #[trigger] after.rows[i]).uid != (#[trigger] after.rows[j]).uid && after.rows[i].id
        != after.rows[j].id by {
        if j == n {
            assert(state.rows[i].uid != todo.uid);
            assert(state.rows[i].id < state.next_id);
        }
    }
}

/// A store stays well formed when rows are deleted from it.
pub proof fn lemma_delete_keeps_wf(state: StoreState, uid: Seq<char>)
    requires
        state.wf(),
    ensures
        state.deleted(uid).wf(),
    decreases state.rows.len(),
{
    reveal(Seq::filter);
    if state.rows.len() > 0 {
        let last = state.rows.last();
        let shorter = StoreState { rows: state.rows.drop_last(), next_id: state.next_id };
        lemma_delete_keeps_wf(shorter, uid);
        let kept = shorter.deleted(uid).rows;
        let keep = |e: TodoEntityView| e.uid != uid;
        assert forall|i: int| 0 <= i < kept.len() implies (#[trigger] kept[i]).uid != last.uid
            && kept[i].id != last.id by {
            assert(kept.contains(kept[i]));
            shorter.rows.lemma_filter_contains_rev(keep, kept[i]);
            let k = choose|k: int| 0 <= k < shorter.rows.len() && shorter.rows[k] == kept[i];
            assert(state.rows[k] == kept[i]);
            assert(state.rows[state.rows.len() - 1] == last);
        }
        assert(state.rows[state.rows.len() - 1] == last);
    }
}

/// A store stays well formed under an update: every row keeps its key and
/// its identifier.
pub proof fn lemma_update_keeps_wf(
    state: StoreState,
    uid: Seq<char>,
    update: TodoEntityUpdateView,
    now: Timestamp,
)
    requires
        state.wf(),
    ensures
        state.updated(uid, update, now).wf(),
{
    let after = state.updated(uid, update, now);
    assert forall|i: int| 0 <= i < after.rows.len() implies (#[trigger] after.rows[i]).uid
        == state.rows[i].uid && after.rows[i].id == state.rows[i].id by {}
}

} // verus!
