//! The statements sent to the database: their text and the values bound to
//! their positional parameters.

use crate::models::{optional_text, CreateTodo, CreateTodoView, UpdateTodo, UpdateTodoView};
use crate::text::{decimal, decimal_text};
use vstd::prelude::*;
use vstd::string::*;

verus! {

/// Inserts a record; the database sets the identifier, the flag and the times.
pub const INSERT_TODO: &'static str =
    "INSERT INTO todos (title, description) VALUES ($1, $2) RETURNING id, title, description, completed, created_at, updated_at";

/// Selects every record, newest first.
pub const SELECT_ALL: &'static str =
    "SELECT id, title, description, completed, created_at, updated_at FROM todos ORDER BY created_at DESC";

/// Selects the records whose flag is `$1`, newest first.
pub const SELECT_BY_COMPLETED: &'static str =
    "SELECT id, title, description, completed, created_at, updated_at FROM todos WHERE completed = $1 ORDER BY created_at DESC";

/// Selects the record with identifier `$1`.
pub const SELECT_BY_ID: &'static str =
    "SELECT id, title, description, completed, created_at, updated_at FROM todos WHERE id = $1";

/// Selects the identifier `$1` if a record has it.
pub const SELECT_ID: &'static str = "SELECT id FROM todos WHERE id = $1";

/// Deletes the record with identifier `$1`.
pub const DELETE_BY_ID: &'static str = "DELETE FROM todos WHERE id = $1";

/// Sets the flag of the record with identifier `$1` and refreshes its time
/// of change.
pub const COMPLETE_BY_ID: &'static str =
    "UPDATE todos SET completed = true, updated_at = NOW() WHERE id = $1 RETURNING id, title, description, completed, created_at, updated_at";

/// The head of every partial update: the time of change is always refreshed.
pub const UPDATE_HEAD: &'static str = "UPDATE todos SET updated_at = NOW()";

/// What follows the number of the last parameter of a partial update.
pub const UPDATE_TAIL: &'static str =
    " RETURNING id, title, description, completed, created_at, updated_at";

/// A value bound to a positional parameter.
#[derive(Debug, PartialEq, Eq)]
pub enum Param {
    Text(String),
    NullableText(Option<String>),
    Bool(bool),
    Uuid(u128),
}

/// The mathematical value of a [`Param`].
pub enum ParamView {
    Text(Seq<char>),
    NullableText(Option<Seq<char>>),
    Bool(bool),
    Uuid(u128),
}

impl View for Param {
    type V = ParamView;

    open spec fn view(&self) -> ParamView {
        match *self {
            Param::Text(s) => ParamView::Text(s@),
            Param::NullableText(s) => ParamView::NullableText(optional_text(s)),
            Param::Bool(b) => ParamView::Bool(b),
            Param::Uuid(id) => ParamView::Uuid(id),
        }
    }
}

/// A statement: its text, and the values of `$1`, `$2`, ... in that order.
#[derive(Debug, PartialEq, Eq)]
pub struct Statement {
    pub sql: String,
    pub params: Vec<Param>,
}

/// The mathematical value of a [`Statement`].
pub struct StatementView {
    pub sql: Seq<char>,
    pub params: Seq<ParamView>,
}

impl View for Statement {
    type V = StatementView;

    open spec fn view(&self) -> StatementView {
        StatementView { sql: self.sql@, params: self.params@.map_values(|p: Param| p@) }
    }
}

impl StatementView {
    /// The statement with the text `sql` whose only parameter is the
    /// identifier `id`.
    pub open spec fn keyed(sql: Seq<char>, id: u128) -> StatementView {
        StatementView { sql, params: seq![ParamView::Uuid(id)] }
    }

    /// The statement that inserts a record.
    pub open spec fn insert(payload: CreateTodoView) -> StatementView {
        StatementView {
            sql: INSERT_TODO@,
            params: seq![
                ParamView::Text(payload.title),
                ParamView::NullableText(payload.description),
            ],
        }
    }

    /// The statement that lists the records.
    pub open spec fn list(completed: Option<bool>) -> StatementView {
        match completed {
            Some(flag) => StatementView {
                sql: SELECT_BY_COMPLETED@,
                params: seq![ParamView::Bool(flag)],
            },
            None => StatementView { sql: SELECT_ALL@, params: Seq::empty() },
        }
    }

    /// The statement of a partial update of the record `id`.
    pub open spec fn update(id: u128, payload: UpdateTodoView) -> StatementView {
        StatementView { sql: update_sql(payload), params: update_params(id, payload) }
    }
}

/// The statement that inserts a record with the title and the description
/// of `payload`.
pub fn insert_statement(payload: CreateTodo) -> (st: Statement)
    ensures
        st@ == StatementView::insert(payload@),
{
    let mut params: Vec<Param> = Vec::new();
    params.push(Param::Text(payload.title));
    params.push(Param::NullableText(payload.description));
    let st = Statement { sql: String::from_str(INSERT_TODO), params };
    assert(st@.params =~= StatementView::insert(payload@).params);
    st
}

/// The statement that lists the records: all of them where `completed` is
/// `None`, else those whose flag is the one given; the newest first.
pub fn list_statement(completed: Option<bool>) -> (st: Statement)
    ensures
        st@ == StatementView::list(completed),
{
    let mut params: Vec<Param> = Vec::new();
    match completed {
        Some(flag) => {
            params.push(Param::Bool(flag));
            let st = Statement { sql: String::from_str(SELECT_BY_COMPLETED), params };
            assert(st@.params =~= seq![ParamView::Bool(flag)]);
            st
        },
        None => {
            let st = Statement { sql: String::from_str(SELECT_ALL), params };
            assert(st@.params =~= Seq::<ParamView>::empty());
            st
        },
    }
}

/// A statement with the text `sql` whose only parameter is the identifier `id`.
fn keyed_statement(sql: &str, id: u128) -> (st: Statement)
    ensures
        st@ == StatementView::keyed(sql@, id),
{
    let mut params: Vec<Param> = Vec::new();
    params.push(Param::Uuid(id));
    let st = Statement { sql: String::from_str(sql), params };
    assert(st@.params =~= seq![ParamView::Uuid(id)]);
    st
}

/// The statement that fetches the record `id`.
pub fn get_statement(id: u128) -> (st: Statement)
    ensures
        st@ == StatementView::keyed(SELECT_BY_ID@, id),
{
    keyed_statement(SELECT_BY_ID, id)
}

/// The statement that tells whether the record `id` exists.
pub fn exists_statement(id: u128) -> (st: Statement)
    ensures
        st@ == StatementView::keyed(SELECT_ID@, id),
{
    keyed_statement(SELECT_ID, id)
}

/// The statement that deletes the record `id`.
pub fn delete_statement(id: u128) -> (st: Statement)
    ensures
        st@ == StatementView::keyed(DELETE_BY_ID@, id),
{
    keyed_statement(DELETE_BY_ID, id)
}

/// The statement that marks the record `id` as completed and refreshes its
/// time of change.
pub fn complete_statement(id: u128) -> (st: Statement)
    ensures
        st@ == StatementView::keyed(COMPLETE_BY_ID@, id),
{
    keyed_statement(COMPLETE_BY_ID, id)
}

/// One assignment of a partial update: `column` takes the value of
/// parameter `n`.
pub open spec fn assignment(column: Seq<char>, n: nat) -> Seq<char> {
    ", "@ + column + " = $"@ + decimal(n)
}

/// The number of the parameter that holds the title, where one is supplied.
pub open spec fn title_number(payload: UpdateTodoView) -> nat {
    1
}

/// The number of the parameter that holds the description, where one is
/// supplied: the one after the title's, or the first.
pub open spec fn description_number(payload: UpdateTodoView) -> nat {
    if payload.title is Some {
        2
    } else {
        1
    }
}

/// The number of the parameter that holds the flag, where one is supplied:
/// the one after those of the title and the description.
pub open spec fn completed_number(payload: UpdateTodoView) -> nat {
    if payload.description is Some {
        description_number(payload) + 1
    } else {
        description_number(payload)
    }
}

/// The assignments of a partial update: one for each supplied field, in the
/// order title, description, completed, numbered from 1 in that order.
pub open spec fn update_assignments(payload: UpdateTodoView) -> Seq<char> {
    (if payload.title is Some {
        assignment("title"@, title_number(payload))
    } else {
        Seq::empty()
    }) + (if payload.description is Some {
        assignment("description"@, description_number(payload))
    } else {
        Seq::empty()
    }) + (if payload.completed is Some {
        assignment("completed"@, completed_number(payload))
    } else {
        Seq::empty()
    })
}

/// The text of a partial update: the head, the assignments, then the
/// condition on the identifier, which is the parameter after the last
/// assigned one.
pub open spec fn update_sql(payload: UpdateTodoView) -> Seq<char> {
    UPDATE_HEAD@ + update_assignments(payload) + " WHERE id = $"@ + decimal(payload.supplied() + 1)
        + UPDATE_TAIL@
}

/// The values bound by a partial update: the supplied fields in the order
/// title, description, completed, then the identifier.
pub open spec fn update_params(id: u128, payload: UpdateTodoView) -> Seq<ParamView> {
    (match payload.title {
        Some(title) => seq![ParamView::Text(title)],
        None => Seq::empty(),
    }) + (match payload.description {
        Some(description) => seq![ParamView::Text(description)],
        None => Seq::empty(),
    }) + (match payload.completed {
        Some(completed) => seq![ParamView::Bool(completed)],
        None => Seq::empty(),
    }) + seq![ParamView::Uuid(id)]
}

/// Appends to `sql` the assignment of parameter `n` to `column`.
fn push_assignment(sql: &mut String, column: &str, n: usize)
    ensures
        final(sql)@ == old(sql)@ + assignment(column@, n as nat),
{
    sql.append(", ");
    sql.append(column);
    sql.append(" = $");
    let number = decimal_text(n);
    sql.append(number.as_str());
    assert(sql@ =~= old(sql)@ + assignment(column@, n as nat));
}

/// The statement that changes the supplied fields of the record `id` and
/// refreshes its time of change. With no field supplied it still refreshes
/// the time.
pub fn update_statement(id: u128, payload: UpdateTodo) -> (st: Statement)
    ensures
        st@ == StatementView::update(id, payload@),
{
    let mut sql = String::from_str(UPDATE_HEAD);
    let mut params: Vec<Param> = Vec::new();
    let mut param_count: usize = 1;
    let ghost view = payload@;
    if let Some(title) = payload.title {
        push_assignment(&mut sql, "title", param_count);
        param_count += 1;
        params.push(Param::Text(title));
    }
    if let Some(description) = payload.description {
        push_assignment(&mut sql, "description", param_count);
        param_count += 1;
        params.push(Param::Text(description));
    }
    if let Some(completed) = payload.completed {
        push_assignment(&mut sql, "completed", param_count);
        param_count += 1;
        params.push(Param::Bool(completed));
    }
    assert(sql@ =~= UPDATE_HEAD@ + update_assignments(view));
    assert(param_count == view.supplied() + 1);
    sql.append(" WHERE id = $");
    let number = decimal_text(param_count);
    sql.append(number.as_str());
    sql.append(UPDATE_TAIL);
    params.push(Param::Uuid(id));
    let st = Statement { sql, params };
    assert(st@.sql =~= update_sql(view));
    assert(st@.params =~= update_params(id, view));
    st
}

/// Parameters are bound by position: a partial update binds one value for
/// each supplied field and one for the identifier, and each value stands at
/// the place whose number the text gives to its column; the identifier
/// stands last.
pub proof fn lemma_update_binds_in_order(id: u128, payload: UpdateTodoView)
    ensures
        update_params(id, payload).len() == payload.supplied() + 1,
        update_params(id, payload)[payload.supplied() as int] == ParamView::Uuid(id),
        payload.title matches Some(title) ==> update_params(id, payload)[title_number(payload)
            - 1] == ParamView::Text(title),
        payload.description matches Some(description) ==> update_params(
            id,
            payload,
        )[description_number(payload) - 1] == ParamView::Text(description),
        payload.completed matches Some(completed) ==> update_params(id, payload)[completed_number(
            payload,
        ) - 1] == ParamView::Bool(completed),
        1 <= title_number(payload) <= description_number(payload) <= completed_number(payload)
            <= payload.supplied() + 1,
{
}

} // verus!
