//! The todo record and the shapes of the requests that create and change it.
//!
//! Identifiers are 128-bit values, timestamps are microseconds since the
//! Unix epoch.

use vstd::prelude::*;

verus! {

/// A todo record as it is stored and returned.
#[derive(Debug, PartialEq, Eq)]
pub struct Todo {
    pub id: u128,
    pub title: String,
    pub description: Option<String>,
    pub completed: bool,
    pub created_at: i64,
    pub updated_at: i64,
}

/// The mathematical value of a [`Todo`].
pub struct TodoView {
    pub id: u128,
    pub title: Seq<char>,
    pub description: Option<Seq<char>>,
    pub completed: bool,
    pub created_at: i64,
    pub updated_at: i64,
}

/// The characters of an optional text.
pub open spec fn optional_text(text: Option<String>) -> Option<Seq<char>> {
    match text {
        Some(s) => Some(s@),
        None => None,
    }
}

impl TodoView {
    /// The record with `stamp` as its time of change.
    pub open spec fn stamped(self, stamp: i64) -> TodoView {
        TodoView { updated_at: stamp, ..self }
    }

    /// The record with the flag set and `stamp` as its time of change.
    pub open spec fn completed_at(self, stamp: i64) -> TodoView {
        TodoView { completed: true, updated_at: stamp, ..self }
    }
}

impl View for Todo {
    type V = TodoView;

    open spec fn view(&self) -> TodoView {
        TodoView {
            id: self.id,
            title: self.title@,
            description: optional_text(self.description),
            completed: self.completed,
            created_at: self.created_at,
            updated_at: self.updated_at,
        }
    }
}

/// Copies an optional text.
pub fn clone_optional_text(text: &Option<String>) -> (copy: Option<String>)
    ensures
        copy == *text,
{
    match text {
        Some(s) => Some(s.clone()),
        None => None,
    }
}

impl Clone for Todo {
    fn clone(&self) -> (copy: Self)
        ensures
            copy == *self,
    {
        Todo {
            id: self.id,
            title: self.title.clone(),
            description: clone_optional_text(&self.description),
            completed: self.completed,
            created_at: self.created_at,
            updated_at: self.updated_at,
        }
    }
}

/// What was returned for a todo: the record itself.
pub type TodoResponse = Todo;

/// The request to create a todo.
#[derive(Debug, PartialEq, Eq)]
pub struct CreateTodo {
    pub title: String,
    pub description: Option<String>,
}

/// The mathematical value of a [`CreateTodo`].
pub struct CreateTodoView {
    pub title: Seq<char>,
    pub description: Option<Seq<char>>,
}

impl View for CreateTodo {
    type V = CreateTodoView;

    open spec fn view(&self) -> CreateTodoView {
        CreateTodoView { title: self.title@, description: optional_text(self.description) }
    }
}

/// The request to change a todo. A field that is `None` is left as it is; a
/// description that is `Some` of an empty text is set to the empty text.
#[derive(Debug, PartialEq, Eq)]
pub struct UpdateTodo {
    pub title: Option<String>,
    pub description: Option<String>,
    pub completed: Option<bool>,
}

/// The mathematical value of an [`UpdateTodo`].
pub struct UpdateTodoView {
    pub title: Option<Seq<char>>,
    pub description: Option<Seq<char>>,
    pub completed: Option<bool>,
}

impl View for UpdateTodo {
    type V = UpdateTodoView;

    open spec fn view(&self) -> UpdateTodoView {
        UpdateTodoView {
            title: optional_text(self.title),
            description: optional_text(self.description),
            completed: self.completed,
        }
    }
}

impl UpdateTodoView {
    /// The update that supplies no field.
    pub open spec fn nothing() -> UpdateTodoView {
        UpdateTodoView { title: None, description: None, completed: None }
    }

    /// The update that supplies the flag and nothing else.
    pub open spec fn flag_only(completed: bool) -> UpdateTodoView {
        UpdateTodoView { title: None, description: None, completed: Some(completed) }
    }

    /// How many of the three fields are supplied.
    pub open spec fn supplied(self) -> nat {
        (if self.title is Some { 1nat } else { 0nat })
            + (if self.description is Some { 1nat } else { 0nat })
            + (if self.completed is Some { 1nat } else { 0nat })
    }
}

} // verus!
