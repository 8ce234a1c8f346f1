//! The conversation with the database, one repository operation at a time.
//!
//! The library does not talk to the database itself. For each operation it
//! says which statement to run and how to read the rows; its host runs the
//! statement and reports what came back; the library then either names the
//! next statement or gives the operation's result.

use crate::error::{not_found_text, AppError};
use crate::models::{CreateTodo, Todo, UpdateTodo};
use crate::query::{
    complete_statement, delete_statement, exists_statement, get_statement, insert_statement,
    list_statement, update_statement, Statement, StatementView, COMPLETE_BY_ID, DELETE_BY_ID,
    SELECT_BY_ID, SELECT_ID,
};
use vstd::prelude::*;
use vstd::string::*;

verus! {

/// The most connections the pool keeps open at once.
pub const MAX_CONNECTIONS: u32 = 5;

/// How the rows of a statement are read.
#[derive(Debug, PartialEq, Eq, Clone, Copy)]
pub enum Fetch {
    /// Exactly one record; none is a failure of the database.
    One,
    /// One record or none.
    Optional,
    /// Every record.
    All,
    /// Only whether a row came back.
    Presence,
    /// No rows; the number of rows changed.
    Execute,
}

/// A statement and how to read its rows.
#[derive(Debug, PartialEq, Eq)]
pub struct Query {
    pub statement: Statement,
    pub fetch: Fetch,
}

/// A repository operation with its arguments.
#[derive(Debug, PartialEq, Eq)]
pub enum Request {
    Create(CreateTodo),
    List(Option<bool>),
    Get(u128),
    Update(u128, UpdateTodo),
    Delete(u128),
    MarkCompleted(u128),
}

/// What the database answered to a query.
#[derive(Debug, PartialEq, Eq)]
pub enum Event {
    /// The record of a [`Fetch::One`].
    One(Todo),
    /// The record of a [`Fetch::Optional`], if there was one.
    Optional(Option<Todo>),
    /// The records of a [`Fetch::All`], in the order returned.
    All(Vec<Todo>),
    /// Whether a [`Fetch::Presence`] found a row.
    Presence(bool),
    /// The number of rows that a [`Fetch::Execute`] changed.
    Affected(u64),
    /// The database failed, with its message.
    Failed(String),
}

/// The result of an operation that succeeded.
#[derive(Debug, PartialEq, Eq)]
pub enum Answer {
    /// The record created, fetched or changed.
    Record(Todo),
    /// The records listed.
    Records(Vec<Todo>),
    /// The record was deleted.
    Deleted,
}

/// An operation under way: what it waits for.
#[derive(Debug, PartialEq, Eq)]
pub enum Exchange {
    /// The record just inserted.
    Creating,
    /// The records listed.
    Listing,
    /// The record `0`, if it exists.
    Getting(u128),
    /// Whether the record `0` exists, before it is changed as `1` says.
    Confirming(u128, UpdateTodo),
    /// The record as changed. The host reports a statement that returned
    /// no row as a failure of the database.
    Updating,
    /// The number of rows deleted for the record `0`.
    Deleting(u128),
    /// The record `0` as marked, if it exists.
    Completing(u128),
}

/// What the host does next.
#[derive(Debug, PartialEq, Eq)]
pub enum Step {
    /// Run the query and report its answer to the exchange.
    Run(Exchange, Query),
    /// The operation is over, with this result.
    Done(Result<Answer, AppError>),
}

/// The message of the failure that answers an event of the wrong kind.
pub const UNEXPECTED_EVENT: &'static str = "unexpected answer from the database";

impl Answer {
    /// The record of an answer that carries one; an internal failure for
    /// any other answer.
    pub fn record(self) -> (res: Result<Todo, AppError>)
        ensures
            self matches Answer::Record(todo) ==> res == Ok::<Todo, AppError>(todo),
            !(self is Record) ==> (res matches Err(AppError::Internal(msg)) && msg@
                == UNEXPECTED_EVENT@),
    {
        match self {
            Answer::Record(todo) => Ok(todo),
            _ => Err(AppError::Internal(String::from_str(UNEXPECTED_EVENT))),
        }
    }

    /// The records of an answer that carries a list; an internal failure
    /// for any other answer.
    pub fn records(self) -> (res: Result<Vec<Todo>, AppError>)
        ensures
            self matches Answer::Records(todos) ==> res == Ok::<Vec<Todo>, AppError>(todos),
            !(self is Records) ==> (res matches Err(AppError::Internal(msg)) && msg@
                == UNEXPECTED_EVENT@),
    {
        match self {
            Answer::Records(todos) => Ok(todos),
            _ => Err(AppError::Internal(String::from_str(UNEXPECTED_EVENT))),
        }
    }

    /// Success for the answer to a deletion; an internal failure for any
    /// other answer.
    pub fn deleted(self) -> (res: Result<(), AppError>)
        ensures
            self is Deleted ==> res is Ok,
            !(self is Deleted) ==> (res matches Err(AppError::Internal(msg)) && msg@
                == UNEXPECTED_EVENT@),
    {
        match self {
            Answer::Deleted => Ok(()),
            _ => Err(AppError::Internal(String::from_str(UNEXPECTED_EVENT))),
        }
    }
}

impl Query {
    /// Whether the query reads rows as `fetch` says from the given statement.
    pub open spec fn reads(self, statement: StatementView, fetch: Fetch) -> bool {
        self.statement@ == statement && self.fetch == fetch
    }
}

impl Step {
    /// Whether the step ends the operation with the failure to find `id`.
    pub open spec fn is_not_found(self, id: u128) -> bool {
        self matches Step::Done(Err(AppError::NotFound(msg))) && msg@ == not_found_text(id)
    }
}

impl Exchange {
    /// Whether `exchange` and `query` are how `request` is opened.
    pub open spec fn opens(request: Request, exchange: Exchange, query: Query) -> bool {
        match request {
            Request::Create(payload) => {
                exchange == Exchange::Creating && query.reads(
                    StatementView::insert(payload@),
                    Fetch::One,
                )
            },
            Request::List(completed) => {
                exchange == Exchange::Listing && query.reads(
                    StatementView::list(completed),
                    Fetch::All,
                )
            },
            Request::Get(id) => {
                exchange == Exchange::Getting(id) && query.reads(
                    StatementView::keyed(SELECT_BY_ID@, id),
                    Fetch::Optional,
                )
            },
            Request::Update(id, payload) => {
                exchange == Exchange::Confirming(id, payload) && query.reads(
                    StatementView::keyed(SELECT_ID@, id),
                    Fetch::Presence,
                )
            },
            Request::Delete(id) => {
                exchange == Exchange::Deleting(id) && query.reads(
                    StatementView::keyed(DELETE_BY_ID@, id),
                    Fetch::Execute,
                )
            },
            Request::MarkCompleted(id) => {
                exchange == Exchange::Completing(id) && query.reads(
                    StatementView::keyed(COMPLETE_BY_ID@, id),
                    Fetch::Optional,
                )
            },
        }
    }

    /// Whether `step` is what follows when `event` is reported to `self`.
    ///
    /// A failure of the database ends the operation with that failure,
    /// whatever was awaited. An absent record ends it with the failure to
    /// find the record; so do a negative existence check before an update and
    /// a delete that changed no row. A confirmed existence check is
    /// followed by the partial update. An event that is not the kind
    /// awaited ends the operation with an internal failure.
    pub open spec fn follows(self, event: Event, step: Step) -> bool {
        match (self, event) {
            (_, Event::Failed(msg)) => step == Step::Done(Err(AppError::DatabaseError(msg))),
            (Exchange::Creating, Event::One(todo)) => step == Step::Done(Ok(Answer::Record(todo))),
            (Exchange::Listing, Event::All(todos)) => step == Step::Done(
                Ok(Answer::Records(todos)),
            ),
            (Exchange::Getting(id), Event::Optional(Some(todo))) => step == Step::Done(
                Ok(Answer::Record(todo)),
            ),
            (Exchange::Getting(id), Event::Optional(None)) => step.is_not_found(id),
            (Exchange::Confirming(id, payload), Event::Presence(true)) => {
                step matches Step::Run(next, query) && next == Exchange::Updating && query.reads(
                    StatementView::update(id, payload@),
                    Fetch::One,
                )
            },
            (Exchange::Confirming(id, payload), Event::Presence(false)) => step.is_not_found(id),
            (Exchange::Updating, Event::One(todo)) => step == Step::Done(Ok(Answer::Record(todo))),
            (Exchange::Deleting(id), Event::Affected(rows)) => {
                if rows == 0 {
                    step.is_not_found(id)
                } else {
                    step == Step::Done(Ok(Answer::Deleted))
                }
            },
            (Exchange::Completing(id), Event::Optional(Some(todo))) => step == Step::Done(
                Ok(Answer::Record(todo)),
            ),
            (Exchange::Completing(id), Event::Optional(None)) => step.is_not_found(id),
            _ => step matches Step::Done(Err(AppError::Internal(msg))) && msg@ == UNEXPECTED_EVENT@,
        }
    }

    /// Opens the operation `request`: the exchange that waits for the
    /// database, and the first query to run.
    pub fn begin(request: Request) -> (opened: (Exchange, Query))
        ensures
            Exchange::opens(request, opened.0, opened.1),
    {
        match request {
            Request::Create(payload) => (
                Exchange::Creating,
                Query { statement: insert_statement(payload), fetch: Fetch::One },
            ),
            Request::List(completed) => (
                Exchange::Listing,
                Query { statement: list_statement(completed), fetch: Fetch::All },
            ),
            Request::Get(id) => (
                Exchange::Getting(id),
                Query { statement: get_statement(id), fetch: Fetch::Optional },
            ),
            Request::Update(id, payload) => (
                Exchange::Confirming(id, payload),
                Query { statement: exists_statement(id), fetch: Fetch::Presence },
            ),
            Request::Delete(id) => (
                Exchange::Deleting(id),
                Query { statement: delete_statement(id), fetch: Fetch::Execute },
            ),
            Request::MarkCompleted(id) => (
                Exchange::Completing(id),
                Query { statement: complete_statement(id), fetch: Fetch::Optional },
            ),
        }
    }

    /// Takes the answer of the database to the query last named, and says
    /// what follows.
    pub fn advance(self, event: Event) -> (step: Step)
        ensures
            self.follows(event, step),
    {
        match (self, event) {
            (_, Event::Failed(msg)) => Step::Done(Err(AppError::DatabaseError(msg))),
            (Exchange::Creating, Event::One(todo)) => Step::Done(Ok(Answer::Record(todo))),
            (Exchange::Listing, Event::All(todos)) => Step::Done(Ok(Answer::Records(todos))),
            (Exchange::Getting(_), Event::Optional(Some(todo))) => Step::Done(
                Ok(Answer::Record(todo)),
            ),
            (Exchange::Getting(id), Event::Optional(None)) => Step::Done(
                Err(AppError::todo_not_found(id)),
            ),
            (Exchange::Confirming(id, payload), Event::Presence(true)) => Step::Run(
                Exchange::Updating,
                Query { statement: update_statement(id, payload), fetch: Fetch::One },
            ),
            (Exchange::Confirming(id, _), Event::Presence(false)) => Step::Done(
                Err(AppError::todo_not_found(id)),
            ),
            (Exchange::Updating, Event::One(todo)) => Step::Done(Ok(Answer::Record(todo))),
            (Exchange::Deleting(id), Event::Affected(rows)) => {
                if rows == 0 {
                    Step::Done(Err(AppError::todo_not_found(id)))
                } else {
                    Step::Done(Ok(Answer::Deleted))
                }
            },
            (Exchange::Completing(_), Event::Optional(Some(todo))) => Step::Done(
                Ok(Answer::Record(todo)),
            ),
            (Exchange::Completing(id), Event::Optional(None)) => Step::Done(
                Err(AppError::todo_not_found(id)),
            ),
            _ => Step::Done(Err(AppError::Internal(String::from_str(UNEXPECTED_EVENT)))),
        }
    }
}

impl Exchange {
    /// The most statements that are still to run before the operation is
    /// over.
    pub open spec fn remaining(self) -> nat {
        match self {
            Exchange::Confirming(_, _) => 2,
            _ => 1,
        }
    }
}

/// Every operation is over after two statements at most: an exchange that
/// goes on, goes on with fewer statements to run, and only an update that
/// has confirmed its record goes on at all.
pub proof fn lemma_exchange_ends(exchange: Exchange, event: Event, step: Step)
    requires
        exchange.follows(event, step),
    ensures
        step matches Step::Run(next, _) ==> next.remaining() < exchange.remaining(),
        step is Run <==> exchange is Confirming && event == Event::Presence(true),
{
}

/// An operation that succeeds gives the answer of its kind: a list for a
/// listing, nothing for a deletion, one record for every other; and an
/// existence check never ends an update with success.
pub proof fn lemma_answer_kind(exchange: Exchange, event: Event, step: Step)
    requires
        exchange.follows(event, step),
    ensures
        step matches Step::Done(Ok(answer)) ==> match exchange {
            Exchange::Listing => answer is Records,
            Exchange::Deleting(_) => answer is Deleted,
            Exchange::Confirming(_, _) => false,
            _ => answer is Record,
        },
{
}

/// No operation returns a record that the database did not give: a result
/// that carries a record or records carries those of the event.
pub proof fn lemma_exchange_returns_rows(exchange: Exchange, event: Event, step: Step)
    requires
        exchange.follows(event, step),
    ensures
        step matches Step::Done(Ok(Answer::Record(todo))) ==> event == Event::One(todo) || event
            == Event::Optional(Some(todo)),
        step matches Step::Done(Ok(Answer::Records(todos))) ==> event == Event::All(todos),
        step matches Step::Done(Err(AppError::DatabaseError(msg))) ==> event == Event::Failed(msg),
{
}

} // verus!
