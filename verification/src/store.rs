//! The book-keeping of the store in memory, as a mathematical value: how it
//! hands out identifiers and stamps, and what each operation makes of it.
//!
//! Identifiers are handed out in increasing order and never twice. Every
//! change is stamped with a time later than every stamp before it: the
//! latest clock reading where the clock has advanced, else the last stamp
//! plus one microsecond.

use crate::models::{CreateTodoView, TodoView, UpdateTodoView};
use crate::table::{
    apply_update, has_id, index_of, is_created, is_deleted, is_updated, lemma_created,
    lemma_deleted, lemma_updated, newest_first, record_of, valid_rows,
};
use vstd::prelude::*;

verus! {

/// The store: its rows, oldest first, the last identifier handed out, the
/// last stamp set, and the latest clock reading.
pub struct Store {
    pub rows: Seq<TodoView>,
    pub last_id: u128,
    pub last_stamp: i64,
    pub reading: i64,
}

impl Store {
    /// The store that holds nothing and has handed out nothing.
    pub open spec fn empty() -> Store {
        Store { rows: Seq::empty(), last_id: 0, last_stamp: i64::MIN, reading: 0 }
    }

    /// The invariant of the store: its rows are valid, identifiers and
    /// times of creation increase along them, no identifier is above the
    /// last one handed out, and no record was changed after the last stamp.
    pub open spec fn wf(self) -> bool {
        &&& valid_rows(self.rows)
        &&& forall|i: int|
            0 <= i < self.rows.len() ==> {
                &&& 1 <= (#[trigger] self.rows[i]).id <= self.last_id
                &&& self.rows[i].updated_at <= self.last_stamp
            }
        &&& forall|i: int, j: int|
            #![trigger self.rows[i], self.rows[j]]
            0 <= i < j < self.rows.len() ==> {
                &&& self.rows[i].id < self.rows[j].id
                &&& self.rows[i].created_at < self.rows[j].created_at
            }
    }

    /// Whether a record has the identifier `id`.
    pub open spec fn has(self, id: u128) -> bool {
        has_id(self.rows, id)
    }

    /// The record `id`.
    pub open spec fn record(self, id: u128) -> TodoView {
        record_of(self.rows, id)
    }

    /// Whether a later stamp exists.
    pub open spec fn can_stamp(self) -> bool {
        self.last_stamp < i64::MAX
    }

    /// Whether a record can be added: a later stamp and a further
    /// identifier exist.
    pub open spec fn has_room(self) -> bool {
        self.can_stamp() && self.last_id < u128::MAX
    }

    /// The stamp of the next change.
    pub open spec fn stamp(self) -> i64 {
        if self.reading > self.last_stamp {
            self.reading
        } else {
            (self.last_stamp + 1) as i64
        }
    }

    /// The store after the clock was read as `reading`.
    pub open spec fn with_reading(self, reading: i64) -> Store {
        Store { reading, ..self }
    }

    /// The record that `create` adds.
    pub open spec fn created(self, payload: CreateTodoView) -> TodoView {
        TodoView {
            id: (self.last_id + 1) as u128,
            title: payload.title,
            description: payload.description,
            completed: false,
            created_at: self.stamp(),
            updated_at: self.stamp(),
        }
    }

    /// The store after `create`.
    pub open spec fn after_create(self, payload: CreateTodoView) -> Store {
        Store {
            rows: self.rows.push(self.created(payload)),
            last_id: (self.last_id + 1) as u128,
            last_stamp: self.stamp(),
            reading: self.reading,
        }
    }

    /// What `list` returns.
    pub open spec fn listed(self, completed: Option<bool>) -> Seq<TodoView> {
        newest_first(self.rows, completed)
    }

    /// The record `id` as `update` leaves it.
    pub open spec fn updated(self, id: u128, payload: UpdateTodoView) -> TodoView {
        apply_update(self.record(id), payload, self.stamp())
    }

    /// The store after `update` of the record `id`.
    pub open spec fn after_update(self, id: u128, payload: UpdateTodoView) -> Store {
        Store {
            rows: self.rows.update(index_of(self.rows, id), self.updated(id, payload)),
            last_stamp: self.stamp(),
            ..self
        }
    }

    /// The store after `delete` of the record `id`.
    pub open spec fn after_delete(self, id: u128) -> Store {
        Store { rows: self.rows.remove(index_of(self.rows, id)), ..self }
    }

    /// The record `id` as `mark_completed` leaves it.
    pub open spec fn marked(self, id: u128) -> TodoView {
        self.updated(id, UpdateTodoView::flag_only(true))
    }

    /// The store after `mark_completed` of the record `id`.
    pub open spec fn after_mark(self, id: u128) -> Store {
        self.after_update(id, UpdateTodoView::flag_only(true))
    }
}

/// The empty store is valid.
pub proof fn lemma_empty_wf()
    ensures
        Store::empty().wf(),
{
}

/// A stamp is later than every stamp before it and not before the clock
/// reading: it is the reading where that is later than the last stamp, else
/// the last stamp plus one.
pub proof fn lemma_stamp_advances(store: Store)
    requires
        store.can_stamp(),
    ensures
        store.stamp() > store.last_stamp,
        store.stamp() >= store.reading,
        store.stamp() == store.reading || store.stamp() == store.last_stamp + 1,
{
}

/// Reading the clock keeps the store valid and its rows as they are.
pub proof fn lemma_reading_keeps(store: Store, reading: i64)
    requires
        store.wf(),
    ensures
        store.with_reading(reading).wf(),
        store.with_reading(reading).rows == store.rows,
{
}

/// Creating a record keeps the store valid and creates the record as every
/// store does. The identifier is one that no record has and none ever had:
/// it is above every identifier handed out before.
pub proof fn lemma_create(store: Store, payload: CreateTodoView)
    requires
        store.wf(),
        store.has_room(),
    ensures
        store.after_create(payload).wf(),
        is_created(store.rows, payload, store.created(payload), store.after_create(payload).rows),
        store.created(payload).id == store.last_id + 1,
        store.created(payload).created_at == store.stamp(),
        store.after_create(payload).has(store.created(payload).id),
{
    let after = store.after_create(payload);
    let todo = store.created(payload);
    if has_id(store.rows, todo.id) {
        let k = index_of(store.rows, todo.id);
        assert(store.rows[k].id <= store.last_id);
    }
    assert forall|i: int| 0 <= i < store.rows.len() implies (#[trigger] store.rows[i]).created_at
        <= todo.created_at by {
        assert(store.rows[i].updated_at <= store.last_stamp);
    }
    lemma_created(store.rows, payload, todo, after.rows);
    assert forall|i: int| 0 <= i < after.rows.len() implies {
        &&& 1 <= (#[trigger] after.rows[i]).id <= after.last_id
        &&& after.rows[i].updated_at <= after.last_stamp
    } by {
        if i < store.rows.len() {
            assert(after.rows[i] == store.rows[i]);
        }
    }
    assert forall|i: int, j: int|
        #![trigger after.rows[i], after.rows[j]]
        0 <= i < j < after.rows.len() implies {
        &&& after.rows[i].id < after.rows[j].id
        &&& after.rows[i].created_at < after.rows[j].created_at
    } by {
        assert(after.rows[i] == store.rows[i]);
        assert(store.rows[i].created_at <= store.rows[i].updated_at);
        if j < store.rows.len() {
            assert(after.rows[j] == store.rows[j]);
        }
    }
}

/// Updating a record keeps the store valid and updates the record as every
/// store does, with the next stamp as its time of change.
pub proof fn lemma_update(store: Store, id: u128, payload: UpdateTodoView)
    requires
        store.wf(),
        store.has(id),
        store.can_stamp(),
    ensures
        store.after_update(id, payload).wf(),
        is_updated(
            store.rows,
            id,
            payload,
            store.updated(id, payload),
            store.after_update(id, payload).rows,
        ),
        store.updated(id, payload).updated_at == store.stamp(),
        store.after_update(id, payload).has(id),
{
    let k = index_of(store.rows, id);
    let after = store.after_update(id, payload);
    let todo = store.updated(id, payload);
    assert(store.rows[k].id == id);
    assert(store.rows[k].updated_at <= store.last_stamp);
    lemma_updated(store.rows, id, payload, todo, after.rows);
    assert forall|i: int| 0 <= i < after.rows.len() implies {
        &&& 1 <= (#[trigger] after.rows[i]).id <= after.last_id
        &&& after.rows[i].updated_at <= after.last_stamp
    } by {
        assert(store.rows[i].id == after.rows[i].id);
        assert(store.rows[i].updated_at <= store.last_stamp);
    }
    assert forall|i: int, j: int|
        #![trigger after.rows[i], after.rows[j]]
        0 <= i < j < after.rows.len() implies {
        &&& after.rows[i].id < after.rows[j].id
        &&& after.rows[i].created_at < after.rows[j].created_at
    } by {
        assert(store.rows[i].id < store.rows[j].id);
    }
}

/// Deleting a record keeps the store valid and deletes the record as every
/// store does.
pub proof fn lemma_delete(store: Store, id: u128)
    requires
        store.wf(),
        store.has(id),
    ensures
        store.after_delete(id).wf(),
        is_deleted(store.rows, id, store.after_delete(id).rows),
        !store.after_delete(id).has(id),
{
    let k = index_of(store.rows, id);
    let after = store.after_delete(id);
    lemma_deleted(store.rows, id, after.rows);
    assert forall|i: int| 0 <= i < after.rows.len() implies {
        &&& 1 <= (#[trigger] after.rows[i]).id <= after.last_id
        &&& after.rows[i].updated_at <= after.last_stamp
    } by {
        let si = if i < k { i } else { i + 1 };
        assert(after.rows[i] == store.rows[si]);
    }
    assert forall|i: int, j: int|
        #![trigger after.rows[i], after.rows[j]]
        0 <= i < j < after.rows.len() implies {
        &&& after.rows[i].id < after.rows[j].id
        &&& after.rows[i].created_at < after.rows[j].created_at
    } by {
        let si = if i < k { i } else { i + 1 };
        let sj = if j < k { j } else { j + 1 };
        assert(after.rows[i] == store.rows[si]);
        assert(after.rows[j] == store.rows[sj]);
        assert(store.rows[si].id < store.rows[sj].id);
    }
}

/// Identifiers are never reused: a new record takes the identifier after
/// the last one handed out, every record's identifier is at most that, and
/// no operation lowers it.
pub proof fn lemma_identifiers_never_reused(
    store: Store,
    id: u128,
    create: CreateTodoView,
    update: UpdateTodoView,
    reading: i64,
)
    requires
        store.wf(),
        store.has_room(),
    ensures
        forall|i: int|
            0 <= i < store.rows.len() ==> (#[trigger] store.rows[i]).id < store.created(create).id,
        store.after_create(create).last_id == store.created(create).id,
        store.after_update(id, update).last_id == store.last_id,
        store.after_delete(id).last_id == store.last_id,
        store.after_mark(id).last_id == store.last_id,
        store.with_reading(reading).last_id == store.last_id,
{
}

} // verus!
