//! Why an operation was refused.

use vstd::prelude::*;

verus! {

/// The reasons for which an operation fails. A failed operation changes
/// nothing.
#[derive(Clone, Copy, Debug, PartialEq, Eq, Structural)]
pub enum Error {
    /// The owner already holds as many todos as one owner can.
    TodoListFull,
    /// The title is longer than a title can be.
    TitleTooLong,
    /// The description is longer than a description can be.
    DescriptionTooLong,
    /// The owner has no todo with the given id.
    TodoNotFound,
}

} // verus!
