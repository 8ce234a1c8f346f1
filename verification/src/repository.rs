//! The repository of todo records: the interface that every store offers,
//! and a store that keeps its records in memory.

use crate::error::{not_found_text, AppError};
use crate::models::{CreateTodo, Todo, TodoView, UpdateTodo, UpdateTodoView};
use crate::store::{
    lemma_create, lemma_delete, lemma_empty_wf, lemma_reading_keeps, lemma_update, Store,
};
use crate::table::{
    has_id, is_created, is_deleted, is_updated, lemma_unique_row, newest_first, passes, record_of,
    valid_rows,
};
use vstd::prelude::*;
use vstd::string::*;

verus! {

/// The values of the records of `rows`, in their order.
pub open spec fn views(rows: Seq<Todo>) -> Seq<TodoView> {
    rows.map_values(|todo: Todo| todo@)
}

/// Whether `res` is the failure to find the record `id`.
pub open spec fn is_not_found<T>(res: Result<T, AppError>, id: u128) -> bool {
    res matches Err(AppError::NotFound(msg)) && msg@ == not_found_text(id)
}

/// The operations on the store of todo records.
///
/// Any of them may fail because the store itself fails; a failure leaves
/// the records as they were. A store says that a record is not found only
/// where there is none. What is stated here holds of every store; a store
/// may promise more, and say when it succeeds.
pub trait TodoRepository {
    /// The records of the store, in the order in which they were created.
    spec fn rows(&self) -> Seq<TodoView>;

    /// Adds a record with the title and the description of `payload`. The
    /// store sets the identifier and the times; the record is not completed.
    fn create(&mut self, payload: CreateTodo) -> (res: Result<Todo, AppError>)
        ensures
            valid_rows(final(self).rows()),
            res matches Ok(todo) ==> is_created(
                old(self).rows(),
                payload@,
                todo@,
                final(self).rows(),
            ),
            res is Err ==> final(self).rows() == old(self).rows(),
    ;

    /// The records, the latest created first: all of them where `completed`
    /// is `None`, else those whose flag is the one given. No record is no
    /// failure.
    fn list(&self, completed: Option<bool>) -> (res: Result<Vec<Todo>, AppError>)
        ensures
            valid_rows(self.rows()),
            res matches Ok(todos) ==> views(todos@) == newest_first(self.rows(), completed),
    ;

    /// The record `id`; the failure to find it where there is none.
    fn get(&self, id: u128) -> (res: Result<Todo, AppError>)
        ensures
            valid_rows(self.rows()),
            res matches Ok(todo) ==> has_id(self.rows(), id) && todo@ == record_of(self.rows(), id),
            res matches Err(AppError::NotFound(_)) ==> !has_id(self.rows(), id) && is_not_found(
                res,
                id,
            ),
    ;

    /// Writes the supplied fields of `payload` over those of the record
    /// `id` and refreshes its time of change, also where no field is
    /// supplied; the failure to find the record where there is none.
    fn update(&mut self, id: u128, payload: UpdateTodo) -> (res: Result<Todo, AppError>)
        ensures
            valid_rows(final(self).rows()),
            res matches Ok(todo) ==> is_updated(
                old(self).rows(),
                id,
                payload@,
                todo@,
                final(self).rows(),
            ),
            res is Err ==> final(self).rows() == old(self).rows(),
            res matches Err(AppError::NotFound(_)) ==> !has_id(old(self).rows(), id)
                && is_not_found(res, id),
    ;

    /// Removes the record `id`; the failure to find it where there is none.
    fn delete(&mut self, id: u128) -> (res: Result<(), AppError>)
        ensures
            valid_rows(final(self).rows()),
            res is Ok ==> is_deleted(old(self).rows(), id, final(self).rows()),
            res is Err ==> final(self).rows() == old(self).rows(),
            res matches Err(AppError::NotFound(_)) ==> !has_id(old(self).rows(), id)
                && is_not_found(res, id),
    ;

    /// Sets the flag of the record `id` and refreshes its time of change,
    /// also where the flag was set: the update that supplies the flag
    /// `true` and nothing else. The failure to find the record where there
    /// is none.
    fn mark_completed(&mut self, id: u128) -> (res: Result<Todo, AppError>)
        ensures
            valid_rows(final(self).rows()),
            res matches Ok(todo) ==> is_updated(
                old(self).rows(),
                id,
                UpdateTodoView::flag_only(true),
                todo@,
                final(self).rows(),
            ),
            res is Err ==> final(self).rows() == old(self).rows(),
            res matches Err(AppError::NotFound(_)) ==> !has_id(old(self).rows(), id)
                && is_not_found(res, id),
    ;
}

/// The message of the failure of a store that has run out of identifiers
/// or of time.
pub const STORE_EXHAUSTED: &'static str = "the store can take no further change";

/// A store that keeps its records in memory.
///
/// It numbers its records from 1 and stamps every change with a time later
/// than every stamp before: the clock reading last given to
/// [`MemoryTodoRepository::set_time`] where that is later, else the last
/// stamp plus one microsecond.
pub struct MemoryTodoRepository {
    rows: Vec<Todo>,
    last_id: u128,
    last_stamp: i64,
    reading: i64,
}

impl View for MemoryTodoRepository {
    type V = Store;

    closed spec fn view(&self) -> Store {
        Store {
            rows: views(self.rows@),
            last_id: self.last_id,
            last_stamp: self.last_stamp,
            reading: self.reading,
        }
    }
}

/// The place of the record `id` among `rows`, if it is there.
fn position(rows: &Vec<Todo>, id: u128) -> (found: Option<usize>)
    ensures
        found matches Some(i) ==> i < rows.len() && rows[i as int].id == id,
        found is None ==> forall|i: int| 0 <= i < rows.len() ==> rows[i].id != id,
{
    let mut i: usize = 0;
    while i < rows.len()
        invariant
            i <= rows.len(),
            forall|k: int| 0 <= k < i ==> rows[k].id != id,
        decreases rows.len() - i,
    {
        if rows[i].id == id {
            return Some(i);
        }
        i += 1;
    }
    None
}

/// Whether `todo` passes the filter on the flag.
fn passes_filter(todo: &Todo, completed: Option<bool>) -> (res: bool)
    ensures
        res == passes(todo@, completed),
{
    match completed {
        Some(flag) => todo.completed == flag,
        None => true,
    }
}

impl MemoryTodoRepository {
    #[verifier::type_invariant]
    spec fn valid(self) -> bool {
        self@.wf()
    }

    /// An empty store, with the clock read as the epoch.
    pub fn new() -> (repo: Self)
        ensures
            repo@ == Store::empty(),
    {
        proof {
            lemma_empty_wf();
        }
        let repo = MemoryTodoRepository {
            rows: Vec::new(),
            last_id: 0,
            last_stamp: i64::MIN,
            reading: 0,
        };
        assert(repo@.rows =~= Store::empty().rows);
        repo
    }

    /// Tells the store the time: `reading` microseconds since the epoch.
    pub fn set_time(&mut self, reading: i64)
        ensures
            final(self)@ == old(self)@.with_reading(reading),
            final(self)@.wf(),
    {
        proof {
            use_type_invariant(&*self);
            lemma_reading_keeps(self@, reading);
        }
        self.reading = reading;
    }

    /// The stamp of the next change.
    fn next_stamp(&self) -> (stamp: i64)
        requires
            self@.can_stamp(),
        ensures
            stamp == self@.stamp(),
    {
        if self.reading > self.last_stamp {
            self.reading
        } else {
            self.last_stamp + 1
        }
    }
}

impl TodoRepository for MemoryTodoRepository {
    open spec fn rows(&self) -> Seq<TodoView> {
        self@.rows
    }

    /// Succeeds while a further identifier and a later stamp exist, and
    /// fails with an internal failure, changing nothing, once they do not.
    fn create(&mut self, payload: CreateTodo) -> (res: Result<Todo, AppError>)
        ensures
            final(self)@.wf(),
            old(self)@.has_room() ==> {
                &&& res matches Ok(todo)
                &&& todo@ == old(self)@.created(payload@)
                &&& final(self)@ == old(self)@.after_create(payload@)
                &&& !old(self)@.has(todo.id)
                &&& final(self)@.has(todo.id)
            },
            !old(self)@.has_room() ==> {
                &&& res matches Err(AppError::Internal(msg))
                &&& msg@ == STORE_EXHAUSTED@
                &&& final(self)@ == old(self)@
            },
    {
        proof {
            use_type_invariant(&*self);
        }
        if self.last_id == u128::MAX || self.last_stamp == i64::MAX {
            return Err(AppError::Internal(String::from_str(STORE_EXHAUSTED)));
        }
        let stamp = self.next_stamp();
        let id: u128 = self.last_id + 1;
        let todo = Todo {
            id,
            title: payload.title,
            description: payload.description,
            completed: false,
            created_at: stamp,
            updated_at: stamp,
        };
        let copy = todo.clone();
        proof {
            lemma_create(self@, payload@);
        }
        let mut rows: Vec<Todo> = Vec::new();
        std::mem::swap(&mut rows, &mut self.rows);
        rows.push(todo);
        assert(views(rows@) =~= old(self)@.after_create(payload@).rows);
        self.last_id = id;
        self.last_stamp = stamp;
        self.rows = rows;
        Ok(copy)
    }

    /// Never fails.
    fn list(&self, completed: Option<bool>) -> (res: Result<Vec<Todo>, AppError>)
        ensures
            res matches Ok(todos) && views(todos@) == self@.listed(completed),
    {
        proof {
            use_type_invariant(self);
        }
        let ghost all = views(self.rows@);
        let mut out: Vec<Todo> = Vec::new();
        let mut i: usize = self.rows.len();
        assert(all.subrange(0, i as int) =~= all);
        while i > 0
            invariant
                i <= self.rows.len(),
                all == views(self.rows@),
                views(out@) + newest_first(all.subrange(0, i as int), completed) == newest_first(
                    all,
                    completed,
                ),
            decreases i,
        {
            let ghost part = all.subrange(0, i as int);
            i -= 1;
            assert(part.last() == self.rows[i as int]@);
            assert(part.drop_last() =~= all.subrange(0, i as int));
            if passes_filter(&self.rows[i], completed) {
                let ghost before = views(out@);
                out.push(self.rows[i].clone());
                assert(views(out@) =~= before + seq![part.last()]);
                assert(views(out@) + newest_first(all.subrange(0, i as int), completed) =~= before
                    + newest_first(part, completed));
            }
        }
        assert(views(out@) =~= newest_first(all, completed));
        Ok(out)
    }

    /// Succeeds exactly where the record exists.
    fn get(&self, id: u128) -> (res: Result<Todo, AppError>)
        ensures
            self@.has(id) ==> (res matches Ok(todo) && todo@ == self@.record(id)),
            !self@.has(id) ==> is_not_found(res, id),
    {
        proof {
            use_type_invariant(self);
        }
        match position(&self.rows, id) {
            Some(i) => {
                proof {
                    lemma_unique_row(self@.rows, id, i as int);
                }
                Ok(self.rows[i].clone())
            },
            None => {
                assert(!self@.has(id));
                Err(AppError::todo_not_found(id))
            },
        }
    }

    /// Fails to find a record that is not there; else succeeds while a
    /// later stamp exists, and fails with an internal failure once none
    /// does. A failure changes nothing.
    fn update(&mut self, id: u128, payload: UpdateTodo) -> (res: Result<Todo, AppError>)
        ensures
            final(self)@.wf(),
            !old(self)@.has(id) ==> is_not_found(res, id) && final(self)@ == old(self)@,
            old(self)@.has(id) && old(self)@.can_stamp() ==> {
                &&& res matches Ok(todo)
                &&& todo@ == old(self)@.updated(id, payload@)
                &&& final(self)@ == old(self)@.after_update(id, payload@)
                &&& final(self)@.has(id)
            },
            old(self)@.has(id) && !old(self)@.can_stamp() ==> {
                &&& res matches Err(AppError::Internal(msg))
                &&& msg@ == STORE_EXHAUSTED@
                &&& final(self)@ == old(self)@
            },
    {
        proof {
            use_type_invariant(&*self);
        }
        let found = position(&self.rows, id);
        let i = match found {
            Some(i) => i,
            None => {
                assert(!self@.has(id));
                return Err(AppError::todo_not_found(id));
            },
        };
        proof {
            lemma_unique_row(self@.rows, id, i as int);
        }
        if self.last_stamp == i64::MAX {
            return Err(AppError::Internal(String::from_str(STORE_EXHAUSTED)));
        }
        let stamp = self.next_stamp();
        proof {
            lemma_update(self@, id, payload@);
        }
        let mut rows: Vec<Todo> = Vec::new();
        std::mem::swap(&mut rows, &mut self.rows);
        let current = rows.remove(i);
        let todo = Todo {
            id: current.id,
            title: match payload.title {
                Some(title) => title,
                None => current.title,
            },
            description: match payload.description {
                Some(description) => Some(description),
                None => current.description,
            },
            completed: match payload.completed {
                Some(completed) => completed,
                None => current.completed,
            },
            created_at: current.created_at,
            updated_at: stamp,
        };
        let copy = todo.clone();
        assert(todo@ == old(self)@.updated(id, payload@));
        rows.insert(i, todo);
        assert(views(rows@) =~= old(self)@.after_update(id, payload@).rows);
        self.last_stamp = stamp;
        self.rows = rows;
        Ok(copy)
    }

    /// Succeeds exactly where the record exists; a failure changes nothing.
    fn delete(&mut self, id: u128) -> (res: Result<(), AppError>)
        ensures
            final(self)@.wf(),
            old(self)@.has(id) ==> {
                &&& res is Ok
                &&& final(self)@ == old(self)@.after_delete(id)
                &&& !final(self)@.has(id)
            },
            !old(self)@.has(id) ==> is_not_found(res, id) && final(self)@ == old(self)@,
    {
        proof {
            use_type_invariant(&*self);
        }
        let found = position(&self.rows, id);
        let i = match found {
            Some(i) => i,
            None => {
                assert(!self@.has(id));
                return Err(AppError::todo_not_found(id));
            },
        };
        proof {
            lemma_unique_row(self@.rows, id, i as int);
            lemma_delete(self@, id);
        }
        let mut rows: Vec<Todo> = Vec::new();
        std::mem::swap(&mut rows, &mut self.rows);
        let _ = rows.remove(i);
        assert(views(rows@) =~= old(self)@.after_delete(id).rows);
        self.rows = rows;
        Ok(())
    }

    /// Fails to find a record that is not there; else succeeds while a
    /// later stamp exists, and fails with an internal failure once none
    /// does. A failure changes nothing.
    fn mark_completed(&mut self, id: u128) -> (res: Result<Todo, AppError>)
        ensures
            final(self)@.wf(),
            !old(self)@.has(id) ==> is_not_found(res, id) && final(self)@ == old(self)@,
            old(self)@.has(id) && old(self)@.can_stamp() ==> {
                &&& res matches Ok(todo)
                &&& todo@ == old(self)@.marked(id)
                &&& final(self)@ == old(self)@.after_mark(id)
                &&& final(self)@.has(id)
            },
            old(self)@.has(id) && !old(self)@.can_stamp() ==> {
                &&& res matches Err(AppError::Internal(msg))
                &&& msg@ == STORE_EXHAUSTED@
                &&& final(self)@ == old(self)@
            },
    {
        proof {
            use_type_invariant(&*self);
        }
        let found = position(&self.rows, id);
        let i = match found {
            Some(i) => i,
            None => {
                assert(!self@.has(id));
                return Err(AppError::todo_not_found(id));
            },
        };
        proof {
            lemma_unique_row(self@.rows, id, i as int);
        }
        if self.last_stamp == i64::MAX {
            return Err(AppError::Internal(String::from_str(STORE_EXHAUSTED)));
        }
        let stamp = self.next_stamp();
        proof {
            lemma_update(self@, id, UpdateTodoView::flag_only(true));
        }
        let mut rows: Vec<Todo> = Vec::new();
        std::mem::swap(&mut rows, &mut self.rows);
        let current = rows.remove(i);
        let todo = Todo {
            id: current.id,
            title: current.title,
            description: current.description,
            completed: true,
            created_at: current.created_at,
            updated_at: stamp,
        };
        let copy = todo.clone();
        assert(todo@ == old(self)@.marked(id));
        rows.insert(i, todo);
        assert(views(rows@) =~= old(self)@.after_mark(id).rows);
        self.last_stamp = stamp;
        self.rows = rows;
        Ok(copy)
    }
}

} // verus!
