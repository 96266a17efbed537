//! The item type and the plain payload records that callers hand to the
//! store, together with their mathematical values.

use vstd::prelude::*;

verus! {

/// Input payload for creating an item: a title and an optional ordering hint.
#[derive(Debug, Clone)]
pub struct TodoInput {
    pub title: String,
    pub order: Option<u32>,
}

/// Partial payload for editing an item: a field left as `None` keeps the
/// item's current value.
#[derive(Debug, Clone)]
pub struct TodoEdit {
    pub title: Option<String>,
    pub completed: Option<bool>,
    pub order: Option<u32>,
}

/// One todo entry. `id` and `location` are fixed at creation; title,
/// completion flag and ordering hint may change through edits.
#[derive(Debug)]
pub struct Todo {
    pub id: usize,
    pub title: String,
    pub completed: bool,
    pub order: Option<u32>,
    pub location: String,
}

/// Mathematical value of a `Todo`.
#[verifier::ext_equal]
pub struct TodoView {
    pub id: int,
    pub title: Seq<char>,
    pub completed: bool,
    pub order: Option<u32>,
    pub location: Seq<char>,
}

impl View for Todo {
    type V = TodoView;

    open spec fn view(&self) -> TodoView {
        TodoView {
            id: self.id as int,
            title: self.title@,
            completed: self.completed,
            order: self.order,
            location: self.location@,
        }
    }
}

/// Mathematical value of a `TodoInput`.
#[verifier::ext_equal]
pub struct TodoInputView {
    pub title: Seq<char>,
    pub order: Option<u32>,
}

impl View for TodoInput {
    type V = TodoInputView;

    open spec fn view(&self) -> TodoInputView {
        TodoInputView { title: self.title@, order: self.order }
    }
}

/// Mathematical value of a `TodoEdit`.
#[verifier::ext_equal]
pub struct TodoEditView {
    pub title: Option<Seq<char>>,
    pub completed: Option<bool>,
    pub order: Option<u32>,
}

impl View for TodoEdit {
    type V = TodoEditView;

    open spec fn view(&self) -> TodoEditView {
        TodoEditView {
            title: match self.title {
                Some(t) => Some(t@),
                None => None,
            },
            completed: self.completed,
            order: self.order,
        }
    }
}

impl Clone for Todo {
    fn clone(&self) -> (r: Todo)
        ensures
            r@ == self@,
    {
        Todo {
            id: self.id,
            title: self.title.clone(),
            completed: self.completed,
            order: self.order,
            location: self.location.clone(),
        }
    }
}

impl Todo {
    /// A fresh entry: not yet completed, with the given id, title, ordering
    /// hint and location.
    pub fn new(id: usize, title: String, order: Option<u32>, location: String) -> (t: Todo)
        ensures
            t@ == (TodoView {
                id: id as int,
                title: title@,
                completed: false,
                order,
                location: location@,
            }),
    {
        Todo { id, title, completed: false, order, location }
    }
}

} // verus!
