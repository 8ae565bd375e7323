//! A todo and what it looks like to the contracts.

use vstd::prelude::*;
use crate::bounded::{
    description_bytes, title_bytes, Description, Title, MAX_DESCRIPTION_LENGTH, MAX_TITLE_LENGTH,
};

verus! {

/// Priority level of a todo.
#[derive(Clone, Copy, Debug, PartialEq, Eq, Structural)]
pub enum Priority {
    Low,
    Medium,
    High,
}

/// A todo item.
#[derive(Debug, PartialEq, Eq)]
pub struct Todo {
    /// Unique among the todos of its owner; never changes.
    pub id: u64,
    pub title: Title,
    pub description: Description,
    pub completed: bool,
    pub priority: Priority,
    /// When the todo was created; never changes.
    pub created_at: u64,
    /// When the todo was created or last changed.
    pub updated_at: u64,
    /// When the todo was completed; present exactly while it is completed.
    pub completed_at: Option<u64>,
}

/// A todo as plain mathematical data.
pub struct TodoView {
    pub id: u64,
    pub title: Seq<u8>,
    pub description: Seq<u8>,
    pub completed: bool,
    pub priority: Priority,
    pub created_at: u64,
    pub updated_at: u64,
    pub completed_at: Option<u64>,
}

impl View for Todo {
    type V = TodoView;

    open spec fn view(&self) -> TodoView {
        TodoView {
            id: self.id,
            title: title_bytes(self.title),
            description: description_bytes(self.description),
            completed: self.completed,
            priority: self.priority,
            created_at: self.created_at,
            updated_at: self.updated_at,
            completed_at: self.completed_at,
        }
    }
}

impl TodoView {
    /// What must hold of every stored todo: both texts are within their
    /// bounds, and the completion time is there exactly when the todo is
    /// completed.
    pub open spec fn valid(self) -> bool {
        &&& self.title.len() <= MAX_TITLE_LENGTH
        &&& self.description.len() <= MAX_DESCRIPTION_LENGTH
        &&& (self.completed_at is Some <==> self.completed)
    }

    /// A todo as it is right after its creation at time `now`.
    pub open spec fn fresh(
        id: u64,
        title: Seq<u8>,
        description: Seq<u8>,
        priority: Priority,
        now: u64,
    ) -> TodoView {
        TodoView {
            id,
            title,
            description,
            completed: false,
            priority,
            created_at: now,
            updated_at: now,
            completed_at: None,
        }
    }

    /// This todo after a change at time `now`, in which each field that is
    /// given replaces the old one and each field that is not stays.
    pub open spec fn patched(
        self,
        title: Option<Seq<u8>>,
        description: Option<Seq<u8>>,
        priority: Option<Priority>,
        now: u64,
    ) -> TodoView {
        TodoView {
            title: match title {
                Some(t) => t,
                None => self.title,
            },
            description: match description {
                Some(d) => d,
                None => self.description,
            },
            priority: match priority {
                Some(p) => p,
                None => self.priority,
            },
            updated_at: now,
            ..self
        }
    }

    /// This todo after its completion was toggled at time `now`.
    pub open spec fn toggled(self, now: u64) -> TodoView {
        TodoView {
            completed: !self.completed,
            updated_at: now,
            completed_at: if self.completed {
                None
            } else {
                Some(now)
            },
            ..self
        }
    }
}

} // verus!
