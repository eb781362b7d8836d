//! The records that the service keeps and the shapes of its requests.

use vstd::prelude::*;

verus! {

/// Data handed to every route. It carries a display name and nothing else.
#[derive(Clone, Debug, PartialEq, Eq)]
pub struct SharedData {
    pub name: String,
}

/// One to-do record. The `id` is also the record's key in the store, written
/// in decimal.
#[derive(Debug, PartialEq, Eq)]
pub struct Todo {
    pub id: u8,
    pub name: String,
    pub description: String,
}

/// The body of an update request: everything of a record but its id, which
/// comes from the path.
#[derive(Clone, Debug, PartialEq, Eq)]
pub struct TodoUpdate {
    pub name: String,
    pub description: String,
}

/// What a `Todo` is, mathematically.
pub struct TodoView {
    pub id: u8,
    pub name: Seq<char>,
    pub description: Seq<char>,
}

/// What a `TodoUpdate` is, mathematically.
pub struct TodoUpdateView {
    pub name: Seq<char>,
    pub description: Seq<char>,
}

impl View for Todo {
    type V = TodoView;

    open spec fn view(&self) -> TodoView {
        TodoView { id: self.id, name: self.name@, description: self.description@ }
    }
}

impl View for TodoUpdate {
    type V = TodoUpdateView;

    open spec fn view(&self) -> TodoUpdateView {
        TodoUpdateView { name: self.name@, description: self.description@ }
    }
}

impl Clone for Todo {
    fn clone(&self) -> (copy: Todo)
        ensures
            copy@ == self@,
    {
        Todo { id: self.id, name: self.name.clone(), description: self.description.clone() }
    }
}

impl TodoUpdateView {
    /// The record that results when this body replaces the name and the
    /// description of the record with the given id.
    pub open spec fn with_id(self, id: u8) -> TodoView {
        TodoView { id, name: self.name, description: self.description }
    }
}

impl TodoUpdate {
    /// Makes the record with the given id and this body's name and
    /// description.
    pub fn into_todo(self, id: u8) -> (todo: Todo)
        ensures
            todo@ == self@.with_id(id),
    {
        Todo { id, name: self.name, description: self.description }
    }
}

} // verus!
