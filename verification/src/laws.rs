//! What holds of every list, whatever was done to it.
//!
//! The operations are written here as the functions on plain data that
//! their contracts name (`created`, `updated`, `toggled`, `deleted`), so
//! each statement holds of every run of the operation itself.

use vstd::prelude::*;
use crate::bounded::MAX_TODOS_PER_ACCOUNT;
use crate::list::{lemma_position_is_unique, TodoListView};
use crate::pallet::Pallet;
use crate::stats::{lemma_total_is_completed_plus_pending, TodoStatistics};
use crate::todo::{Priority, TodoView};

verus! {

/// The list of an owner for whom nothing was done yet is valid.
pub proof fn lemma_initial_is_valid()
    ensures
        TodoListView::initial().valid(),
        TodoListView::initial().todos.len() == 0,
        TodoListView::initial().stats == (TodoStatistics {
            total: 0,
            completed: 0,
            pending: 0,
            high_priority: 0,
        }),
{
}

/// A valid list never holds more todos than one owner can have.
pub proof fn lemma_within_capacity(list: TodoListView)
    requires
        list.valid(),
    ensures
        list.todos.len() <= MAX_TODOS_PER_ACCOUNT,
{
}

/// In a well-formed pallet no owner holds more todos than one owner can
/// have.
pub proof fn lemma_every_owner_within_capacity(pallet: Pallet, who: u64)
    requires
        pallet.wf(),
    ensures
        pallet.state(who).valid(),
        pallet.state(who).todos.len() <= MAX_TODOS_PER_ACCOUNT,
{
}

/// In a valid list the total is the number of todos, and the completed
/// and the pending todos add up to it.
pub proof fn lemma_statistics_add_up(list: TodoListView)
    requires
        list.valid(),
    ensures
        list.stats.total == list.todos.len(),
        list.stats.total == list.stats.completed + list.stats.pending,
        list.stats.high_priority <= list.stats.pending,
{
    lemma_total_is_completed_plus_pending(list.todos);
}

/// In a valid list a todo has a completion time exactly when it is
/// completed.
pub proof fn lemma_completion_time_iff_completed(list: TodoListView, i: int)
    requires
        list.valid(),
        0 <= i < list.todos.len(),
    ensures
        list.todos[i].completed_at is Some <==> list.todos[i].completed,
{
    assert(list.todos[i].valid());
}

/// In a valid list no two todos share an id, and every id is below the
/// one that is handed out next.
pub proof fn lemma_ids_distinct_and_used(list: TodoListView, i: int, j: int)
    requires
        list.valid(),
        0 <= i < list.todos.len(),
        0 <= j < list.todos.len(),
        i != j,
    ensures
        list.todos[i].id != list.todos[j].id,
        list.todos[i].id < list.next_id,
{
    assert(list.todos[i].valid());
    if i < j {
        assert(list.todos[i].id != list.todos[j].id);
    } else {
        assert(list.todos[j].id != list.todos[i].id);
    }
}

/// A creation that succeeds leaves a valid list, hands out an id that no
/// todo of the list has, and raises the next id by exactly one.
pub proof fn lemma_created_is_valid(
    list: TodoListView,
    title: Seq<u8>,
    description: Seq<u8>,
    priority: Priority,
    now: u64,
)
    requires
        list.valid(),
        list.next_id < u64::MAX,
        list.create_outcome(title, description) is Ok,
    ensures
        list.created(title, description, priority, now).valid(),
        list.create_outcome(title, description) == Ok::<u64, crate::error::Error>(list.next_id),
        !list.contains_id(list.next_id),
        list.created(title, description, priority, now).next_id == list.next_id + 1,
        list.created(title, description, priority, now).todos.len() == list.todos.len() + 1,
        list.created(title, description, priority, now).todos.last() == TodoView::fresh(
            list.next_id,
            title,
            description,
            priority,
            now,
        ),
{
    let after = list.created(title, description, priority, now);
    assert forall|i: int| 0 <= i < after.todos.len() implies (#[trigger] after.todos[i]).valid()
        && after.todos[i].id < after.next_id by {
        if i < list.todos.len() {
            assert(list.todos[i].valid());
        }
    }
    assert forall|i: int, j: int| 0 <= i < j < after.todos.len() implies (
    #[trigger] after.todos[i]).id != (#[trigger] after.todos[j]).id by {
        assert(list.todos[i].valid());
        if j < list.todos.len() {
            assert(list.todos[i].id != list.todos[j].id);
        }
    }
    assert forall|i: int| !list.is_position(list.next_id, i) by {
        if 0 <= i < list.todos.len() {
            assert(list.todos[i].valid());
        }
    }
}

/// An update that succeeds leaves a valid list with the same ids at the
/// same places and the same next id.
pub proof fn lemma_updated_is_valid(
    list: TodoListView,
    id: u64,
    title: Option<Seq<u8>>,
    description: Option<Seq<u8>>,
    priority: Option<Priority>,
    now: u64,
)
    requires
        list.valid(),
        list.update_outcome(id, title, description) is Ok,
    ensures
        list.updated(id, title, description, priority, now).valid(),
        list.updated(id, title, description, priority, now).next_id == list.next_id,
        list.updated(id, title, description, priority, now).todos.len() == list.todos.len(),
        list.updated(id, title, description, priority, now).position(id) == list.position(id),
{
    let at = list.position(id);
    assert(list.is_position(id, at));
    let after = list.updated(id, title, description, priority, now);
    assert forall|i: int| 0 <= i < after.todos.len() implies (#[trigger] after.todos[i]).valid()
        && after.todos[i].id < after.next_id by {
        assert(list.todos[i].valid());
    }
    assert forall|i: int, j: int| 0 <= i < j < after.todos.len() implies (
    #[trigger] after.todos[i]).id != (#[trigger] after.todos[j]).id by {
        assert(list.todos[i].id != list.todos[j].id);
    }
    assert forall|j: int| 0 <= j < at implies (#[trigger] after.todos[j]).id != id by {
        assert(list.todos[j].id != id);
    }
    lemma_position_is_unique(after, id, at);
}

/// A toggle that succeeds leaves a valid list with the same ids at the
/// same places and the same next id.
pub proof fn lemma_toggled_is_valid(list: TodoListView, id: u64, now: u64)
    requires
        list.valid(),
        list.contains_id(id),
    ensures
        list.toggled(id, now).valid(),
        list.toggled(id, now).next_id == list.next_id,
        list.toggled(id, now).todos.len() == list.todos.len(),
        list.toggled(id, now).contains_id(id),
        list.toggled(id, now).position(id) == list.position(id),
{
    let at = list.position(id);
    assert(list.is_position(id, at));
    let after = list.toggled(id, now);
    assert forall|i: int| 0 <= i < after.todos.len() implies (#[trigger] after.todos[i]).valid()
        && after.todos[i].id < after.next_id by {
        assert(list.todos[i].valid());
    }
    assert forall|i: int, j: int| 0 <= i < j < after.todos.len() implies (
    #[trigger] after.todos[i]).id != (#[trigger] after.todos[j]).id by {
        assert(list.todos[i].id != list.todos[j].id);
    }
    assert forall|j: int| 0 <= j < at implies (#[trigger] after.todos[j]).id != id by {
        assert(list.todos[j].id != id);
    }
    lemma_position_is_unique(after, id, at);
}

/// A deletion that succeeds leaves a valid list with one todo less, in
/// which no todo has the deleted id, and the same next id.
pub proof fn lemma_deleted_is_valid(list: TodoListView, id: u64)
    requires
        list.valid(),
        list.contains_id(id),
    ensures
        list.deleted(id).valid(),
        list.deleted(id).next_id == list.next_id,
        list.deleted(id).todos.len() == list.todos.len() - 1,
        !list.deleted(id).contains_id(id),
{
    let at = list.position(id);
    assert(list.is_position(id, at));
    let after = list.deleted(id);
    assert forall|i: int| 0 <= i < after.todos.len() implies (#[trigger] after.todos[i]).valid()
        && after.todos[i].id < after.next_id && after.todos[i].id != id by {
        if i < at {
            assert(list.todos[i].valid());
            assert(list.todos[i].id != list.todos[at].id);
        } else {
            assert(list.todos[i + 1].valid());
            assert(list.todos[at].id != list.todos[i + 1].id);
        }
    }
    assert forall|i: int, j: int| 0 <= i < j < after.todos.len() implies (
    #[trigger] after.todos[i]).id != (#[trigger] after.todos[j]).id by {
        let a = if i < at {
            i
        } else {
            i + 1
        };
        let b = if j < at {
            j
        } else {
            j + 1
        };
        assert(list.todos[a].id != list.todos[b].id);
    }
    assert forall|i: int| !after.is_position(id, i) by {
        if 0 <= i < after.todos.len() {
            assert(after.todos[i].id != id);
        }
    }
}

/// An id is not handed out again after its todo was deleted: the next
/// creation gets an id that is higher than every id the list ever held.
pub proof fn lemma_deleted_id_is_not_reused(
    list: TodoListView,
    id: u64,
    title: Seq<u8>,
    description: Seq<u8>,
)
    requires
        list.valid(),
        list.contains_id(id),
        list.deleted(id).create_outcome(title, description) is Ok,
    ensures
        list.deleted(id).create_outcome(title, description)->Ok_0 == list.next_id,
        list.deleted(id).create_outcome(title, description)->Ok_0 > id,
{
    let at = list.position(id);
    assert(list.is_position(id, at));
    assert(list.todos[at].valid());
}

/// Toggling a todo twice gives back its completion flag, and with it
/// whether it has a completion time; the time of the last change is that
/// of the first toggle after the first, and that of the second after the
/// second. Every other field, and every other todo, is as before.
pub proof fn lemma_toggle_twice(list: TodoListView, id: u64, first: u64, second: u64)
    requires
        list.valid(),
        list.contains_id(id),
    ensures
        ({
            let at = list.position(id);
            let was = list.todos[at];
            let once = list.toggled(id, first);
            let twice = once.toggled(id, second);
            &&& once.todos[at].completed == !was.completed
            &&& once.todos[at].updated_at == first
            &&& twice.todos[at].completed == was.completed
            &&& (twice.todos[at].completed_at is Some) == (was.completed_at is Some)
            &&& twice.todos[at].updated_at == second
            &&& twice.todos == list.todos.update(
                at,
                TodoView {
                    updated_at: second,
                    completed_at: if was.completed {
                        Some(second)
                    } else {
                        None
                    },
                    ..was
                },
            )
            &&& twice.next_id == list.next_id
        }),
{
    let at = list.position(id);
    assert(list.is_position(id, at));
    assert(list.todos[at].valid());
    lemma_toggled_is_valid(list, id, first);
    let once = list.toggled(id, first);
    let twice = once.toggled(id, second);
    let was = list.todos[at];
    assert(twice.todos =~= list.todos.update(
        at,
        TodoView {
            updated_at: second,
            completed_at: if was.completed {
                Some(second)
            } else {
                None
            },
            ..was
        },
    ));
}

/// Toggling a todo twice gives back its completion time as well, for a
/// todo that was pending, and for a completed one whose completion time
/// is the time of the second toggle.
pub proof fn lemma_toggle_twice_restores_completion_time(
    list: TodoListView,
    id: u64,
    first: u64,
    second: u64,
)
    requires
        list.valid(),
        list.contains_id(id),
        !list.todos[list.position(id)].completed || list.todos[list.position(id)].completed_at
            == Some(second),
    ensures
        list.toggled(id, first).toggled(id, second).todos[list.position(id)].completed
            == list.todos[list.position(id)].completed,
        list.toggled(id, first).toggled(id, second).todos[list.position(id)].completed_at
            == list.todos[list.position(id)].completed_at,
{
    lemma_toggle_twice(list, id, first, second);
    let at = list.position(id);
    assert(list.is_position(id, at));
    assert(list.todos[at].valid());
}

/// One call of one of the four operations, with its arguments.
pub enum Call {
    Create { title: Seq<u8>, description: Seq<u8>, priority: Priority, now: u64 },
    Update {
        id: u64,
        title: Option<Seq<u8>>,
        description: Option<Seq<u8>>,
        priority: Option<Priority>,
        now: u64,
    },
    Toggle { id: u64, now: u64 },
    Delete { id: u64 },
}

/// The list after one call: what the operation makes of it where the call
/// succeeds, and the list itself where it fails.
pub open spec fn after(list: TodoListView, call: Call) -> TodoListView {
    match call {
        Call::Create { title, description, priority, now } => {
            if list.create_outcome(title, description) is Ok {
                list.created(title, description, priority, now)
            } else {
                list
            }
        },
        Call::Update { id, title, description, priority, now } => {
            if list.update_outcome(id, title, description) is Ok {
                list.updated(id, title, description, priority, now)
            } else {
                list
            }
        },
        Call::Toggle { id, now } => {
            if list.contains_id(id) {
                list.toggled(id, now)
            } else {
                list
            }
        },
        Call::Delete { id } => {
            if list.contains_id(id) {
                list.deleted(id)
            } else {
                list
            }
        },
    }
}

/// The list after a sequence of calls, made one after the other.
pub open spec fn after_all(list: TodoListView, calls: Seq<Call>) -> TodoListView
    decreases calls.len(),
{
    if calls.len() == 0 {
        list
    } else {
        after(after_all(list, calls.drop_last()), calls.last())
    }
}

/// One call leaves a valid list valid, and raises the next id by one at
/// most.
pub proof fn lemma_valid_after(list: TodoListView, call: Call)
    requires
        list.valid(),
        list.next_id < u64::MAX,
    ensures
        after(list, call).valid(),
        list.next_id <= after(list, call).next_id <= list.next_id + 1,
{
    match call {
        Call::Create { title, description, priority, now } => {
            if list.create_outcome(title, description) is Ok {
                lemma_created_is_valid(list, title, description, priority, now);
            }
        },
        Call::Update { id, title, description, priority, now } => {
            if list.update_outcome(id, title, description) is Ok {
                lemma_updated_is_valid(list, id, title, description, priority, now);
            }
        },
        Call::Toggle { id, now } => {
            if list.contains_id(id) {
                lemma_toggled_is_valid(list, id, now);
            }
        },
        Call::Delete { id } => {
            if list.contains_id(id) {
                lemma_deleted_is_valid(list, id);
            }
        },
    }
}

/// Whatever calls are made, in whatever order, a valid list stays valid:
/// it stays within capacity, its ids stay distinct, its statistics add
/// up, and each todo has a completion time exactly when it is completed.
/// The next id never falls. (So many calls that the ids would run out are
/// left aside.)
pub proof fn lemma_valid_after_all(list: TodoListView, calls: Seq<Call>)
    requires
        list.valid(),
        list.next_id + calls.len() <= u64::MAX,
    ensures
        after_all(list, calls).valid(),
        after_all(list, calls).todos.len() <= MAX_TODOS_PER_ACCOUNT,
        list.next_id <= after_all(list, calls).next_id <= list.next_id + calls.len(),
    decreases calls.len(),
{
    if calls.len() > 0 {
        lemma_valid_after_all(list, calls.drop_last());
        lemma_valid_after(after_all(list, calls.drop_last()), calls.last());
    }
}

/// An id is handed out once: the id that a creation hands out after any
/// sequence of calls is higher than every id that the list held at any
/// point of that sequence, whether the todo is still there or was deleted
/// since.
pub proof fn lemma_created_id_was_never_used(
    list: TodoListView,
    calls: Seq<Call>,
    earlier: int,
    i: int,
    title: Seq<u8>,
    description: Seq<u8>,
)
    requires
        list.valid(),
        list.next_id + calls.len() <= u64::MAX,
        0 <= earlier <= calls.len(),
        0 <= i < after_all(list, calls.take(earlier)).todos.len(),
        after_all(list, calls).create_outcome(title, description) is Ok,
    ensures
        after_all(list, calls.take(earlier)).todos[i].id < after_all(list, calls).create_outcome(
            title,
            description,
        )->Ok_0,
{
    let then = after_all(list, calls.take(earlier));
    lemma_valid_after_all(list, calls.take(earlier));
    assert(then.todos[i].valid());
    lemma_next_id_never_falls(list, calls, earlier);
}

/// The next id after a sequence of calls is at least what it was after
/// any part of the sequence that came first.
pub proof fn lemma_next_id_never_falls(list: TodoListView, calls: Seq<Call>, earlier: int)
    requires
        list.valid(),
        list.next_id + calls.len() <= u64::MAX,
        0 <= earlier <= calls.len(),
    ensures
        after_all(list, calls.take(earlier)).next_id <= after_all(list, calls).next_id,
    decreases calls.len(),
{
    if earlier == calls.len() {
        assert(calls.take(earlier) == calls);
    } else {
        let shorter = calls.drop_last();
        assert(shorter.take(earlier) == calls.take(earlier));
        lemma_next_id_never_falls(list, shorter, earlier);
        lemma_valid_after_all(list, shorter);
        lemma_valid_after(after_all(list, shorter), calls.last());
    }
}

} // verus!
