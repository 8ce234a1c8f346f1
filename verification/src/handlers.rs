//! The request handlers: each takes the input of one request, calls the
//! repository, and answers a success with a status and a body. Failures of
//! the repository are passed on as they are.

use crate::error::AppError;
use crate::models::{CreateTodo, Todo, UpdateTodo, UpdateTodoView};
use crate::repository::{is_not_found, views, TodoRepository};
use crate::table::{has_id, is_created, is_deleted, is_updated, newest_first, record_of, valid_rows};
use vstd::prelude::*;

verus! {

/// The status of a request that was served.
pub const OK: u16 = 200;

/// The status of a request that created a record.
pub const CREATED: u16 = 201;

/// The status of a request that was served and has nothing to return.
pub const NO_CONTENT: u16 = 204;

/// The query of a request for the list of records.
#[derive(Debug, PartialEq, Eq)]
pub struct TodoFilter {
    pub completed: Option<bool>,
}

/// What a reply carries.
#[derive(Debug, PartialEq, Eq)]
pub enum Body {
    /// One record.
    Record(Todo),
    /// The records listed, in their order.
    Records(Vec<Todo>),
    /// Nothing.
    Empty,
}

/// The answer to a request that was served.
#[derive(Debug, PartialEq, Eq)]
pub struct Reply {
    pub status: u16,
    pub body: Body,
}

impl Reply {
    /// Whether the reply has the given status and carries one record.
    pub open spec fn returns_record(self, status: u16) -> bool {
        self.status == status && self.body is Record
    }

    /// The record of a reply that carries one.
    pub open spec fn todo(self) -> Todo {
        self.body->Record_0
    }

    /// The reply with the given status that carries `todo`.
    pub open spec fn with_record(status: u16, todo: Todo) -> Reply {
        Reply { status, body: Body::Record(todo) }
    }

    /// The reply with status 200 that carries `todos`.
    pub open spec fn with_records(todos: Vec<Todo>) -> Reply {
        Reply { status: OK, body: Body::Records(todos) }
    }

    /// The reply with status 204 that carries nothing.
    pub open spec fn empty() -> Reply {
        Reply { status: NO_CONTENT, body: Body::Empty }
    }
}

/// Answers what the repository made of a creation: status 201 with the
/// record created, or the failure as it is.
pub fn created(outcome: Result<Todo, AppError>) -> (res: Result<Reply, AppError>)
    ensures
        outcome matches Ok(todo) ==> res == Ok::<Reply, AppError>(Reply::with_record(CREATED, todo)),
        outcome matches Err(e) ==> res == Err::<Reply, AppError>(e),
{
    match outcome {
        Ok(todo) => Ok(Reply { status: CREATED, body: Body::Record(todo) }),
        Err(e) => Err(e),
    }
}

/// Answers what the repository made of a fetch or a change: status 200
/// with the record, or the failure as it is.
pub fn returned(outcome: Result<Todo, AppError>) -> (res: Result<Reply, AppError>)
    ensures
        outcome matches Ok(todo) ==> res == Ok::<Reply, AppError>(Reply::with_record(OK, todo)),
        outcome matches Err(e) ==> res == Err::<Reply, AppError>(e),
{
    match outcome {
        Ok(todo) => Ok(Reply { status: OK, body: Body::Record(todo) }),
        Err(e) => Err(e),
    }
}

/// Answers what the repository made of a listing: status 200 with the
/// records in their order, or the failure as it is.
pub fn listed(outcome: Result<Vec<Todo>, AppError>) -> (res: Result<Reply, AppError>)
    ensures
        outcome matches Ok(todos) ==> res == Ok::<Reply, AppError>(Reply::with_records(todos)),
        outcome matches Err(e) ==> res == Err::<Reply, AppError>(e),
{
    match outcome {
        Ok(todos) => Ok(Reply { status: OK, body: Body::Records(todos) }),
        Err(e) => Err(e),
    }
}

/// Answers what the repository made of a deletion: status 204 with no
/// body, or the failure as it is.
pub fn deleted(outcome: Result<(), AppError>) -> (res: Result<Reply, AppError>)
    ensures
        outcome is Ok ==> res == Ok::<Reply, AppError>(Reply::empty()),
        outcome matches Err(e) ==> res == Err::<Reply, AppError>(e),
{
    match outcome {
        Ok(()) => Ok(Reply { status: NO_CONTENT, body: Body::Empty }),
        Err(e) => Err(e),
    }
}

/// Creates a record: status 201 and the record created.
pub fn create_todo<R: TodoRepository>(repo: &mut R, payload: CreateTodo) -> (res: Result<
    Reply,
    AppError,
>)
    ensures
        valid_rows(final(repo).rows()),
        res matches Ok(reply) ==> reply.returns_record(CREATED) && is_created(
            old(repo).rows(),
            payload@,
            reply.todo()@,
            final(repo).rows(),
        ),
        res is Err ==> final(repo).rows() == old(repo).rows(),
{
    created(repo.create(payload))
}

/// Lists the records that pass the filter, the latest created first: status
/// 200 and the records.
pub fn list_todos<R: TodoRepository>(repo: &R, filter: TodoFilter) -> (res: Result<Reply, AppError>)
    ensures
        valid_rows(repo.rows()),
        res matches Ok(reply) ==> {
            &&& reply.status == OK
            &&& reply.body matches Body::Records(todos)
            &&& views(todos@) == newest_first(repo.rows(), filter.completed)
        },
{
    listed(repo.list(filter.completed))
}

/// Fetches the record `id`: status 200 and the record.
pub fn get_todo<R: TodoRepository>(repo: &R, id: u128) -> (res: Result<Reply, AppError>)
    ensures
        valid_rows(repo.rows()),
        res matches Ok(reply) ==> {
            &&& reply.returns_record(OK)
            &&& has_id(repo.rows(), id)
            &&& reply.todo()@ == record_of(repo.rows(), id)
        },
        res matches Err(AppError::NotFound(_)) ==> !has_id(repo.rows(), id) && is_not_found(res, id),
{
    returned(repo.get(id))
}

/// Changes the supplied fields of the record `id`: status 200 and the
/// record as changed.
pub fn update_todo<R: TodoRepository>(repo: &mut R, id: u128, payload: UpdateTodo) -> (res: Result<
    Reply,
    AppError,
>)
    ensures
        valid_rows(final(repo).rows()),
        res matches Ok(reply) ==> reply.returns_record(OK) && is_updated(
            old(repo).rows(),
            id,
            payload@,
            reply.todo()@,
            final(repo).rows(),
        ),
        res is Err ==> final(repo).rows() == old(repo).rows(),
        res matches Err(AppError::NotFound(_)) ==> !has_id(old(repo).rows(), id) && is_not_found(
            res,
            id,
        ),
{
    returned(repo.update(id, payload))
}

/// Deletes the record `id`: status 204 and no body.
pub fn delete_todo<R: TodoRepository>(repo: &mut R, id: u128) -> (res: Result<Reply, AppError>)
    ensures
        valid_rows(final(repo).rows()),
        res matches Ok(reply) ==> reply == Reply::empty() && is_deleted(
            old(repo).rows(),
            id,
            final(repo).rows(),
        ),
        res is Err ==> final(repo).rows() == old(repo).rows(),
        res matches Err(AppError::NotFound(_)) ==> !has_id(old(repo).rows(), id) && is_not_found(
            res,
            id,
        ),
{
    deleted(repo.delete(id))
}

/// Marks the record `id` as completed: status 200 and the record as
/// marked.
pub fn mark_completed<R: TodoRepository>(repo: &mut R, id: u128) -> (res: Result<Reply, AppError>)
    ensures
        valid_rows(final(repo).rows()),
        res matches Ok(reply) ==> reply.returns_record(OK) && is_updated(
            old(repo).rows(),
            id,
            UpdateTodoView::flag_only(true),
            reply.todo()@,
            final(repo).rows(),
        ),
        res is Err ==> final(repo).rows() == old(repo).rows(),
        res matches Err(AppError::NotFound(_)) ==> !has_id(old(repo).rows(), id) && is_not_found(
            res,
            id,
        ),
{
    returned(repo.mark_completed(id))
}

} // verus!
