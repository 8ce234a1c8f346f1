//! The table of todo records as a mathematical value: what holds of its
//! rows in every store, what each repository operation makes of them, and
//! the laws that follow.
//!
//! The rows stand in the order in which the records were created.

use crate::models::{CreateTodoView, TodoView, UpdateTodoView};
use vstd::prelude::*;

verus! {

/// Whether a row of `rows` has the identifier `id`.
pub open spec fn has_id(rows: Seq<TodoView>, id: u128) -> bool {
    exists|i: int| 0 <= i < rows.len() && (#[trigger] rows[i]).id == id
}

/// The place among `rows` of the record `id`.
pub open spec fn index_of(rows: Seq<TodoView>, id: u128) -> int {
    choose|i: int| 0 <= i < rows.len() && (#[trigger] rows[i]).id == id
}

/// The record `id` among `rows`.
pub open spec fn record_of(rows: Seq<TodoView>, id: u128) -> TodoView {
    rows[index_of(rows, id)]
}

/// What holds of the rows of every store: no two have the same
/// identifier, none was created after a later row, and none was created
/// after it was last changed.
pub open spec fn valid_rows(rows: Seq<TodoView>) -> bool {
    &&& forall|i: int| 0 <= i < rows.len() ==> (#[trigger] rows[i]).created_at <= rows[i].updated_at
    &&& forall|i: int, j: int|
        #![trigger rows[i], rows[j]]
        0 <= i < j < rows.len() ==> {
            &&& rows[i].id != rows[j].id
            &&& rows[i].created_at <= rows[j].created_at
        }
}

/// Whether a record passes the filter on the flag: any record where
/// `completed` is `None`, else the records with that flag.
pub open spec fn passes(todo: TodoView, completed: Option<bool>) -> bool {
    match completed {
        Some(flag) => todo.completed == flag,
        None => true,
    }
}

/// The rows that pass the filter, the last row first.
pub open spec fn newest_first(rows: Seq<TodoView>, completed: Option<bool>) -> Seq<TodoView>
    decreases rows.len(),
{
    if rows.len() == 0 {
        Seq::empty()
    } else if passes(rows.last(), completed) {
        seq![rows.last()] + newest_first(rows.drop_last(), completed)
    } else {
        newest_first(rows.drop_last(), completed)
    }
}

/// The record `todo` with the supplied fields of `payload` written over
/// its own, and `stamp` as its time of change.
pub open spec fn apply_update(todo: TodoView, payload: UpdateTodoView, stamp: i64) -> TodoView {
    TodoView {
        id: todo.id,
        title: match payload.title {
            Some(title) => title,
            None => todo.title,
        },
        description: match payload.description {
            Some(description) => Some(description),
            None => todo.description,
        },
        completed: match payload.completed {
            Some(completed) => completed,
            None => todo.completed,
        },
        created_at: todo.created_at,
        updated_at: stamp,
    }
}

/// Whether creating a record from `payload` made `after` of `before` and
/// returned `todo`: the record has the title and the description asked for,
/// is not completed, was created when it was last changed and not before
/// any other record, has an identifier that no record had, and is the one
/// row added.
pub open spec fn is_created(
    before: Seq<TodoView>,
    payload: CreateTodoView,
    todo: TodoView,
    after: Seq<TodoView>,
) -> bool {
    &&& todo.title == payload.title
    &&& todo.description == payload.description
    &&& !todo.completed
    &&& todo.created_at == todo.updated_at
    &&& !has_id(before, todo.id)
    &&& forall|i: int| 0 <= i < before.len() ==> (#[trigger] before[i]).created_at <= todo.created_at
    &&& after == before.push(todo)
}

/// Whether updating the record `id` as `payload` says made `after` of
/// `before` and returned `todo`: the record existed, took the supplied
/// fields and kept the others, its identifier and its time of creation,
/// was last changed strictly later than before, and is the one row that
/// changed.
pub open spec fn is_updated(
    before: Seq<TodoView>,
    id: u128,
    payload: UpdateTodoView,
    todo: TodoView,
    after: Seq<TodoView>,
) -> bool {
    &&& has_id(before, id)
    &&& todo == apply_update(record_of(before, id), payload, todo.updated_at)
    &&& todo.updated_at > record_of(before, id).updated_at
    &&& after == before.update(index_of(before, id), todo)
}

/// Whether deleting the record `id` made `after` of `before`: the record
/// existed, and its row is the one removed.
pub open spec fn is_deleted(before: Seq<TodoView>, id: u128, after: Seq<TodoView>) -> bool {
    &&& has_id(before, id)
    &&& after == before.remove(index_of(before, id))
}

/// An identifier names at most one row: a row with the identifier `id` is
/// the record `id`.
pub proof fn lemma_unique_row(rows: Seq<TodoView>, id: u128, i: int)
    requires
        valid_rows(rows),
        0 <= i < rows.len(),
        rows[i].id == id,
    ensures
        has_id(rows, id),
        index_of(rows, id) == i,
        record_of(rows, id) == rows[i],
{
    let j = index_of(rows, id);
    assert(0 <= j < rows.len() && rows[j].id == id);
    if j < i {
        assert(rows[j].id != rows[i].id);
    }
    if i < j {
        assert(rows[i].id != rows[j].id);
    }
}

/// After a record was created the rows are valid again, the record can be
/// fetched, and every other record is as it was.
pub proof fn lemma_created(
    before: Seq<TodoView>,
    payload: CreateTodoView,
    todo: TodoView,
    after: Seq<TodoView>,
)
    requires
        valid_rows(before),
        is_created(before, payload, todo, after),
    ensures
        valid_rows(after),
        after.len() == before.len() + 1,
        has_id(after, todo.id),
        record_of(after, todo.id) == todo,
        forall|other: u128|
            has_id(before, other) ==> has_id(after, other) && record_of(after, other) == record_of(
                before,
                other,
            ),
{
    let n = before.len() as int;
    assert(after[n] == todo);
    assert forall|i: int| 0 <= i < after.len() implies (#[trigger] after[i]).created_at
        <= after[i].updated_at by {
        if i < n {
            assert(after[i] == before[i]);
        }
    }
    assert forall|i: int, j: int|
        #![trigger after[i], after[j]]
        0 <= i < j < after.len() implies {
        &&& after[i].id != after[j].id
        &&& after[i].created_at <= after[j].created_at
    } by {
        assert(after[i] == before[i]);
        if j < n {
            assert(after[j] == before[j]);
        }
    }
    lemma_unique_row(after, todo.id, n);
    assert forall|other: u128| has_id(before, other) implies has_id(after, other) && record_of(
        after,
        other,
    ) == record_of(before, other) by {
        let k = index_of(before, other);
        assert(after[k] == before[k]);
        lemma_unique_row(after, other, k);
    }
}

/// After a record was updated the rows are valid again and as many as
/// before, the record fetched is the one returned, and every other record
/// is as it was. The record holds the supplied fields.
pub proof fn lemma_updated(
    before: Seq<TodoView>,
    id: u128,
    payload: UpdateTodoView,
    todo: TodoView,
    after: Seq<TodoView>,
)
    requires
        valid_rows(before),
        is_updated(before, id, payload, todo, after),
    ensures
        valid_rows(after),
        after.len() == before.len(),
        has_id(after, id),
        record_of(after, id) == todo,
        forall|other: u128| has_id(after, other) <==> has_id(before, other),
        forall|other: u128|
            other != id && has_id(before, other) ==> record_of(after, other) == record_of(
                before,
                other,
            ),
        todo.id == id,
        todo.created_at == record_of(before, id).created_at,
        todo.created_at <= todo.updated_at,
        payload.title matches Some(title) ==> todo.title == title,
        payload.description matches Some(description) ==> todo.description == Some(description),
        payload.completed matches Some(completed) ==> todo.completed == completed,
{
    let k = index_of(before, id);
    assert(before[k].id == id);
    assert(after[k] == todo);
    assert forall|i: int| 0 <= i < after.len() implies (#[trigger] after[i]).created_at
        <= after[i].updated_at by {
        assert(before[i].created_at <= before[i].updated_at);
    }
    assert forall|i: int| 0 <= i < after.len() implies (#[trigger] after[i]).id == before[i].id
        && after[i].created_at == before[i].created_at by {
    }
    assert forall|i: int, j: int|
        #![trigger after[i], after[j]]
        0 <= i < j < after.len() implies {
        &&& after[i].id != after[j].id
        &&& after[i].created_at <= after[j].created_at
    } by {
        assert(before[i].id != before[j].id);
    }
    lemma_unique_row(after, id, k);
    assert forall|other: u128| has_id(after, other) <==> has_id(before, other) by {
        if has_id(after, other) {
            let i = index_of(after, other);
            assert(before[i].id == other);
        }
        if has_id(before, other) {
            let i = index_of(before, other);
            assert(after[i].id == other);
        }
    }
    assert forall|other: u128| other != id && has_id(before, other) implies record_of(after, other)
        == record_of(before, other) by {
        let i = index_of(before, other);
        assert(after[i] == before[i]);
        lemma_unique_row(after, other, i);
    }
}

/// Updating only the flag leaves the title and the description as they
/// were and moves the time of change strictly forward.
pub proof fn lemma_update_flag_only(
    before: Seq<TodoView>,
    id: u128,
    completed: bool,
    todo: TodoView,
    after: Seq<TodoView>,
)
    requires
        valid_rows(before),
        is_updated(before, id, UpdateTodoView::flag_only(completed), todo, after),
    ensures
        record_of(after, id) == todo,
        todo.title == record_of(before, id).title,
        todo.description == record_of(before, id).description,
        todo.completed == completed,
        todo.updated_at > record_of(before, id).updated_at,
        todo.id == record_of(before, id).id,
        todo.created_at == record_of(before, id).created_at,
{
    lemma_updated(before, id, UpdateTodoView::flag_only(completed), todo, after);
}

/// An update that supplies no field still moves the time of change
/// strictly forward, and leaves every other field as it was.
pub proof fn lemma_update_nothing(
    before: Seq<TodoView>,
    id: u128,
    todo: TodoView,
    after: Seq<TodoView>,
)
    requires
        valid_rows(before),
        is_updated(before, id, UpdateTodoView::nothing(), todo, after),
    ensures
        record_of(after, id) == todo,
        todo == record_of(before, id).stamped(todo.updated_at),
        todo.updated_at > record_of(before, id).updated_at,
{
    lemma_updated(before, id, UpdateTodoView::nothing(), todo, after);
}

/// Marking a record as completed is the update that supplies the flag
/// `true` and nothing else. The record is completed afterwards whether or
/// not it was before; where it was, nothing of it changes but the time of
/// change, which moves strictly forward.
pub proof fn lemma_mark_completed(
    before: Seq<TodoView>,
    id: u128,
    todo: TodoView,
    after: Seq<TodoView>,
)
    requires
        valid_rows(before),
        is_updated(before, id, UpdateTodoView::flag_only(true), todo, after),
    ensures
        record_of(after, id) == todo,
        todo.completed,
        todo == record_of(before, id).completed_at(todo.updated_at),
        record_of(before, id).completed ==> todo == record_of(before, id).stamped(todo.updated_at),
        todo.updated_at > record_of(before, id).updated_at,
{
    lemma_updated(before, id, UpdateTodoView::flag_only(true), todo, after);
}

/// After a record was deleted the rows are valid again and one fewer, no
/// record has its identifier, so that deleting, fetching or changing it
/// again finds nothing, and every other record is as it was.
pub proof fn lemma_deleted(before: Seq<TodoView>, id: u128, after: Seq<TodoView>)
    requires
        valid_rows(before),
        is_deleted(before, id, after),
    ensures
        valid_rows(after),
        after.len() == before.len() - 1,
        !has_id(after, id),
        forall|other: u128| other != id ==> (has_id(after, other) <==> has_id(before, other)),
        forall|other: u128|
            other != id && has_id(before, other) ==> record_of(after, other) == record_of(
                before,
                other,
            ),
{
    let k = index_of(before, id);
    assert(before[k].id == id);
    assert forall|i: int| 0 <= i < after.len() implies (#[trigger] after[i]).created_at
        <= after[i].updated_at by {
        let si = if i < k { i } else { i + 1 };
        assert(after[i] == before[si]);
    }
    assert forall|i: int, j: int|
        #![trigger after[i], after[j]]
        0 <= i < j < after.len() implies {
        &&& after[i].id != after[j].id
        &&& after[i].created_at <= after[j].created_at
    } by {
        let si = if i < k { i } else { i + 1 };
        let sj = if j < k { j } else { j + 1 };
        assert(after[i] == before[si]);
        assert(after[j] == before[sj]);
        assert(before[si].id != before[sj].id);
    }
    if has_id(after, id) {
        let i = index_of(after, id);
        let si = if i < k { i } else { i + 1 };
        assert(after[i] == before[si]);
        lemma_unique_row(before, id, si);
    }
    assert forall|other: u128| other != id implies (has_id(after, other) <==> has_id(
        before,
        other,
    )) by {
        if has_id(after, other) {
            let i = index_of(after, other);
            let si = if i < k { i } else { i + 1 };
            assert(after[i] == before[si]);
        }
        if has_id(before, other) {
            let si = index_of(before, other);
            let i = if si < k { si } else { si - 1 };
            assert(after[i] == before[si]);
        }
    }
    assert forall|other: u128| other != id && has_id(before, other) implies record_of(after, other)
        == record_of(before, other) by {
        let si = index_of(before, other);
        let i = if si < k { si } else { si - 1 };
        assert(after[i] == before[si]);
        lemma_unique_row(after, other, i);
    }
}

/// Every record listed is a row that passes the filter, and every row that
/// passes the filter is listed.
pub proof fn lemma_listed_members(rows: Seq<TodoView>, completed: Option<bool>)
    ensures
        newest_first(rows, completed).len() <= rows.len(),
        forall|i: int|
            0 <= i < newest_first(rows, completed).len() ==> passes(
                #[trigger] newest_first(rows, completed)[i],
                completed,
            ) && rows.contains(newest_first(rows, completed)[i]),
        forall|k: int|
            0 <= k < rows.len() && passes(#[trigger] rows[k], completed) ==> newest_first(
                rows,
                completed,
            ).contains(rows[k]),
    decreases rows.len(),
{
    let listed = newest_first(rows, completed);
    if rows.len() > 0 {
        let front = rows.drop_last();
        let rest = newest_first(front, completed);
        lemma_listed_members(front, completed);
        let shift: int = if passes(rows.last(), completed) { 1 } else { 0 };
        assert(listed.len() == rest.len() + shift);
        assert forall|i: int| 0 <= i < listed.len() implies passes(#[trigger] listed[i], completed)
            && rows.contains(listed[i]) by {
            if shift == 1 && i == 0 {
                assert(listed[0] == rows[rows.len() - 1]);
            } else {
                assert(listed[i] == rest[i - shift]);
                assert(front.contains(rest[i - shift]));
                let k = choose|k: int| 0 <= k < front.len() && front[k] == rest[i - shift];
                assert(rows[k] == front[k]);
            }
        }
        assert forall|k: int| 0 <= k < rows.len() && passes(#[trigger] rows[k], completed)
            implies listed.contains(rows[k]) by {
            if k == rows.len() - 1 {
                assert(listed[0] == rows[k]);
            } else {
                assert(front[k] == rows[k]);
                assert(rest.contains(front[k]));
                let i = choose|i: int| 0 <= i < rest.len() && rest[i] == front[k];
                assert(listed[i + shift] == rest[i]);
            }
        }
    }
}

/// Without a filter every row is listed, the last created first.
pub proof fn lemma_listed_all(rows: Seq<TodoView>)
    ensures
        newest_first(rows, None) =~= rows.reverse(),
    decreases rows.len(),
{
    if rows.len() > 0 {
        lemma_listed_all(rows.drop_last());
    }
}

/// The list is ordered by time of creation, descending, and holds no
/// record twice.
pub proof fn lemma_listed_order(rows: Seq<TodoView>, completed: Option<bool>)
    requires
        valid_rows(rows),
    ensures
        forall|i: int, j: int|
            #![trigger newest_first(rows, completed)[i], newest_first(rows, completed)[j]]
            0 <= i < j < newest_first(rows, completed).len() ==> {
                &&& newest_first(rows, completed)[i].created_at >= newest_first(
                    rows,
                    completed,
                )[j].created_at
                &&& newest_first(rows, completed)[i].id != newest_first(rows, completed)[j].id
            },
    decreases rows.len(),
{
    let listed = newest_first(rows, completed);
    if rows.len() > 0 {
        let front = rows.drop_last();
        let rest = newest_first(front, completed);
        assert forall|i: int| 0 <= i < front.len() implies (#[trigger] front[i]).created_at
            <= front[i].updated_at by {
            assert(front[i] == rows[i]);
        }
        assert forall|i: int, j: int|
            #![trigger front[i], front[j]]
            0 <= i < j < front.len() implies {
            &&& front[i].id != front[j].id
            &&& front[i].created_at <= front[j].created_at
        } by {
            assert(front[i] == rows[i] && front[j] == rows[j]);
        }
        lemma_listed_order(front, completed);
        lemma_listed_members(front, completed);
        let shift: int = if passes(rows.last(), completed) { 1 } else { 0 };
        assert forall|i: int, j: int|
            #![trigger listed[i], listed[j]]
            0 <= i < j < listed.len() implies {
            &&& listed[i].created_at >= listed[j].created_at
            &&& listed[i].id != listed[j].id
        } by {
            assert(listed[j] == rest[j - shift]);
            if shift == 1 && i == 0 {
                assert(front.contains(rest[j - shift]));
                let k = choose|k: int| 0 <= k < front.len() && front[k] == rest[j - shift];
                assert(rows[k] == front[k]);
                assert(rows[k].id != rows[rows.len() - 1].id);
            } else {
                assert(listed[i] == rest[i - shift]);
            }
        }
    }
}

/// What a store lists: records of the store that pass the filter, each of
/// them once, ordered by time of creation, the latest first; every record
/// that passes the filter is among them, and with no filter all records
/// are.
pub proof fn lemma_listing(rows: Seq<TodoView>, completed: Option<bool>)
    requires
        valid_rows(rows),
    ensures
        forall|i: int|
            0 <= i < newest_first(rows, completed).len() ==> {
                &&& passes(#[trigger] newest_first(rows, completed)[i], completed)
                &&& has_id(rows, newest_first(rows, completed)[i].id)
                &&& record_of(rows, newest_first(rows, completed)[i].id) == newest_first(
                    rows,
                    completed,
                )[i]
            },
        forall|id: u128|
            has_id(rows, id) && passes(record_of(rows, id), completed) ==> newest_first(
                rows,
                completed,
            ).contains(#[trigger] record_of(rows, id)),
        forall|i: int, j: int|
            #![trigger newest_first(rows, completed)[i], newest_first(rows, completed)[j]]
            0 <= i < j < newest_first(rows, completed).len() ==> {
                &&& newest_first(rows, completed)[i].created_at >= newest_first(
                    rows,
                    completed,
                )[j].created_at
                &&& newest_first(rows, completed)[i].id != newest_first(rows, completed)[j].id
            },
        newest_first(rows, None).len() == rows.len(),
{
    let listed = newest_first(rows, completed);
    lemma_listed_members(rows, completed);
    lemma_listed_order(rows, completed);
    lemma_listed_all(rows);
    assert forall|i: int| 0 <= i < listed.len() implies {
        &&& passes(#[trigger] listed[i], completed)
        &&& has_id(rows, listed[i].id)
        &&& record_of(rows, listed[i].id) == listed[i]
    } by {
        assert(rows.contains(listed[i]));
        let k = choose|k: int| 0 <= k < rows.len() && rows[k] == listed[i];
        lemma_unique_row(rows, listed[i].id, k);
    }
    assert forall|id: u128| has_id(rows, id) && passes(record_of(rows, id), completed) implies listed.contains(
        #[trigger] record_of(rows, id),
    ) by {
        let k = index_of(rows, id);
        assert(rows[k] == record_of(rows, id));
    }
}

} // verus!
