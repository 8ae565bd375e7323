//! Statistics over one owner's todos.

use vstd::prelude::*;
use crate::bounded::{todo_items, todos_get, todos_len, Todos, MAX_TODOS_PER_ACCOUNT};
use crate::todo::{Priority, Todo, TodoView};

verus! {

/// Summary of one owner's todos.
#[derive(Clone, Copy, Debug, PartialEq, Eq, Structural)]
pub struct TodoStatistics {
    /// Number of todos.
    pub total: u32,
    /// Number of completed todos.
    pub completed: u32,
    /// Number of todos that are not completed.
    pub pending: u32,
    /// Number of todos of high priority that are not completed.
    pub high_priority: u32,
}

impl Default for TodoStatistics {
    /// The statistics of no todos: every count is zero.
    fn default() -> (stats: TodoStatistics)
        ensures
            stats == stats_of(Seq::<TodoView>::empty()),
    {
        TodoStatistics { total: 0, completed: 0, pending: 0, high_priority: 0 }
    }
}

/// The views of the todos in `items`, in the same order.
pub open spec fn views(items: Seq<Todo>) -> Seq<TodoView> {
    items.map_values(|t: Todo| t@)
}

/// Whether a todo counts as urgent: high priority and not completed.
pub open spec fn is_urgent(t: TodoView) -> bool {
    t.priority == Priority::High && !t.completed
}

/// How many of `todos` are completed.
pub open spec fn completed_count(todos: Seq<TodoView>) -> nat
    decreases todos.len(),
{
    if todos.len() == 0 {
        0
    } else {
        completed_count(todos.drop_last()) + if todos.last().completed {
            1nat
        } else {
            0nat
        }
    }
}

/// How many of `todos` are of high priority and not completed.
pub open spec fn urgent_count(todos: Seq<TodoView>) -> nat
    decreases todos.len(),
{
    if todos.len() == 0 {
        0
    } else {
        urgent_count(todos.drop_last()) + if is_urgent(todos.last()) {
            1nat
        } else {
            0nat
        }
    }
}

/// The statistics of `todos`.
pub open spec fn stats_of(todos: Seq<TodoView>) -> TodoStatistics {
    TodoStatistics {
        total: todos.len() as u32,
        completed: completed_count(todos) as u32,
        pending: (todos.len() - completed_count(todos)) as u32,
        high_priority: urgent_count(todos) as u32,
    }
}

/// Neither count exceeds the number of todos, and a todo that is urgent is
/// not completed, so the two counts together do not exceed it either.
pub proof fn lemma_counts_bounded(todos: Seq<TodoView>)
    ensures
        completed_count(todos) + urgent_count(todos) <= todos.len(),
    decreases todos.len(),
{
    if todos.len() > 0 {
        lemma_counts_bounded(todos.drop_last());
    }
}

/// The total is the sum of the completed and the pending todos, as long
/// as the number of todos fits in 32 bits.
pub proof fn lemma_total_is_completed_plus_pending(todos: Seq<TodoView>)
    requires
        todos.len() <= u32::MAX,
    ensures
        stats_of(todos).total == stats_of(todos).completed + stats_of(todos).pending,
        stats_of(todos).total == todos.len(),
        stats_of(todos).completed == completed_count(todos),
        stats_of(todos).high_priority == urgent_count(todos),
        stats_of(todos).high_priority <= stats_of(todos).pending,
{
    lemma_counts_bounded(todos);
}

/// One scan over the todos that counts them, the completed ones among
/// them, and the urgent ones.
pub fn compute_stats(todos: &Todos) -> (stats: TodoStatistics)
    requires
        todo_items(*todos).len() <= MAX_TODOS_PER_ACCOUNT,
    ensures
        stats == stats_of(views(todo_items(*todos))),
{
    let ghost all = views(todo_items(*todos));
    let len: usize = todos_len(todos);
    let mut completed: u32 = 0;
    let mut high_priority: u32 = 0;
    let mut i: usize = 0;
    while i < len
        invariant
            all == views(todo_items(*todos)),
            len == all.len(),
            len <= MAX_TODOS_PER_ACCOUNT,
            i <= len,
            completed == completed_count(all.take(i as int)),
            high_priority == urgent_count(all.take(i as int)),
            completed <= i,
            high_priority <= i,
        decreases len - i,
    {
        let todo = todos_get(todos, i);
        proof {
            assert(all.take(i + 1).drop_last() == all.take(i as int));
            assert(all.take(i + 1).last() == todo@);
        }
        if todo.completed {
            completed = completed + 1;
        }
        if is_high(todo.priority) && !todo.completed {
            high_priority = high_priority + 1;
        }
        i = i + 1;
    }
    proof {
        assert(all.take(len as int) == all);
    }
    TodoStatistics { total: len as u32, completed, pending: len as u32 - completed, high_priority }
}

/// Whether a priority is `High`.
pub fn is_high(priority: Priority) -> (r: bool)
    ensures
        r == (priority == Priority::High),
{
    match priority {
        Priority::High => true,
        _ => false,
    }
}

} // verus!
