//! The bounded vectors of `frame_support` as this library uses them.
//!
//! `frame_support` re-exports `BoundedVec` and `ConstU32` from the crate
//! `bounded_collections`, which defines them. Verus does not look inside a
//! `BoundedVec`. The declarations in this file tell it what the few
//! methods that the library calls do to the contents; none of those
//! statements is proved here.

use vstd::prelude::*;
use frame_support::traits::ConstU32;
use frame_support::BoundedVec;
use crate::todo::Todo;

verus! {

/// Longest title, in bytes.
pub const MAX_TITLE_LENGTH: usize = 100;

/// Longest description, in bytes.
pub const MAX_DESCRIPTION_LENGTH: usize = 500;

/// Most todos that one owner can hold.
pub const MAX_TODOS_PER_ACCOUNT: usize = 50;

/// `frame_support::BoundedVec`, carried as an opaque value.
#[verifier::external_type_specification]
#[verifier::external_body]
#[verifier::reject_recursive_types(T)]
#[verifier::reject_recursive_types(S)]
pub struct ExBoundedVec<T, S>(BoundedVec<T, S>);

/// `frame_support::traits::ConstU32`, the type-level bound of a
/// `BoundedVec`.
#[verifier::external_type_specification]
#[verifier::external_body]
pub struct ExConstU32<const N: u32>(ConstU32<N>);

/// A title: at most 100 bytes.
pub type Title = BoundedVec<u8, ConstU32<100>>;

/// A description: at most 500 bytes.
pub type Description = BoundedVec<u8, ConstU32<500>>;

/// One owner's todos: at most 50, in the order of their creation.
pub type Todos = BoundedVec<Todo, ConstU32<50>>;

/// The bytes that a title holds, in order.
pub uninterp spec fn title_bytes(t: Title) -> Seq<u8>;

/// The bytes that a description holds, in order.
pub uninterp spec fn description_bytes(d: Description) -> Seq<u8>;

/// The todos that a collection holds, in order.
pub uninterp spec fn todo_items(t: Todos) -> Seq<Todo>;

/// `BoundedVec::try_from(Vec<u8>)` at the bound 100: the vector is taken
/// as it is when it has at most 100 bytes, and handed back otherwise.
#[verifier::external_body]
pub(crate) fn bound_title(bytes: Vec<u8>) -> (r: Result<Title, Vec<u8>>)
    ensures
        bytes@.len() <= MAX_TITLE_LENGTH ==> r is Ok && title_bytes(r->Ok_0) == bytes@,
        bytes@.len() > MAX_TITLE_LENGTH ==> r is Err && r->Err_0 == bytes,
{
    BoundedVec::try_from(bytes)
}

/// `BoundedVec::try_from(Vec<u8>)` at the bound 500: the vector is taken
/// as it is when it has at most 500 bytes, and handed back otherwise.
#[verifier::external_body]
pub(crate) fn bound_description(bytes: Vec<u8>) -> (r: Result<Description, Vec<u8>>)
    ensures
        bytes@.len() <= MAX_DESCRIPTION_LENGTH ==> r is Ok && description_bytes(r->Ok_0)
            == bytes@,
        bytes@.len() > MAX_DESCRIPTION_LENGTH ==> r is Err && r->Err_0 == bytes,
{
    BoundedVec::try_from(bytes)
}

/// `len`, which a `BoundedVec` has from the `Vec` inside it: the number
/// of bytes in a title.
#[verifier::external_body]
pub(crate) fn title_len(title: &Title) -> (r: usize)
    ensures
        r == title_bytes(*title).len(),
{
    title.len()
}

/// `len`, which a `BoundedVec` has from the `Vec` inside it: the number
/// of bytes in a description.
#[verifier::external_body]
pub(crate) fn description_len(description: &Description) -> (r: usize)
    ensures
        r == description_bytes(*description).len(),
{
    description.len()
}

/// `BoundedVec::new`: a collection that holds nothing.
#[verifier::external_body]
pub(crate) fn todos_new() -> (r: Todos)
    ensures
        todo_items(r) == Seq::<Todo>::empty(),
{
    BoundedVec::new()
}

/// `len`, which a `BoundedVec` has from the `Vec` inside it: the number
/// of items held.
#[verifier::external_body]
pub(crate) fn todos_len(todos: &Todos) -> (r: usize)
    ensures
        r == todo_items(*todos).len(),
{
    todos.len()
}

/// Indexing a `BoundedVec` by position, which reads the `Vec` inside it:
/// the item at `index`. Out of range it panics, so the range is required.
#[verifier::external_body]
pub(crate) fn todos_get(todos: &Todos, index: usize) -> (r: &Todo)
    requires
        index < todo_items(*todos).len(),
    ensures
        *r == todo_items(*todos)[index as int],
{
    &todos[index]
}

/// Mutable indexing of a `BoundedVec` by position: a handle to the item
/// at `index`; what is written through it replaces that item and no
/// other. Out of range it panics, so the range is required.
#[verifier::external_body]
pub(crate) fn todos_get_mut(todos: &mut Todos, index: usize) -> (r: &mut Todo)
    requires
        index < todo_items(*old(todos)).len(),
    ensures
        *r == todo_items(*old(todos))[index as int],
        todo_items(*final(todos)) == todo_items(*old(todos)).update(index as int, *final(r)),
{
    &mut todos[index]
}

/// `BoundedVec::try_push` at the bound 50: below the bound the item is
/// appended; at the bound nothing changes and the item is handed back.
#[verifier::external_body]
pub(crate) fn todos_try_push(todos: &mut Todos, todo: Todo) -> (r: Result<(), Todo>)
    ensures
        todo_items(*old(todos)).len() < MAX_TODOS_PER_ACCOUNT ==> r is Ok && todo_items(
            *final(todos),
        ) == todo_items(*old(todos)).push(todo),
        todo_items(*old(todos)).len() >= MAX_TODOS_PER_ACCOUNT ==> r is Err && r->Err_0 == todo
            && *final(todos) == *old(todos),
{
    todos.try_push(todo)
}

/// `BoundedVec::remove`, which is `Vec::remove`: the item at `index`
/// leaves and is returned, the items behind it move up by one. Out of
/// range it panics, so the range is required.
#[verifier::external_body]
pub(crate) fn todos_remove(todos: &mut Todos, index: usize) -> (r: Todo)
    requires
        index < todo_items(*old(todos)).len(),
    ensures
        r == todo_items(*old(todos))[index as int],
        todo_items(*final(todos)) == todo_items(*old(todos)).remove(index as int),
{
    todos.remove(index)
}

} // verus!
