//! One owner's todo list: the todos, the next id to hand out, and the
//! statistics, with the four operations that change them.

use vstd::prelude::*;
use crate::bounded::{
    bound_description, bound_title, description_len, title_len, todo_items, todos_get,
    todos_get_mut, todos_len, todos_new, todos_remove, todos_try_push, Description, Title, Todos,
    MAX_DESCRIPTION_LENGTH, MAX_TITLE_LENGTH, MAX_TODOS_PER_ACCOUNT,
};
use crate::error::Error;
use crate::stats::{compute_stats, stats_of, views, TodoStatistics};
use crate::todo::{Priority, Todo, TodoView};

verus! {

/// Everything that is kept for one owner.
#[derive(Debug, PartialEq, Eq)]
pub struct TodoList {
    /// The todos, oldest first.
    pub todos: Todos,
    /// The id that the next todo gets; it only ever grows.
    pub next_id: u64,
    /// The statistics of `todos`, kept up to date by every operation.
    pub stats: TodoStatistics,
}

/// One owner's list as plain mathematical data.
pub struct TodoListView {
    pub todos: Seq<TodoView>,
    pub next_id: u64,
    pub stats: TodoStatistics,
}

impl View for TodoList {
    type V = TodoListView;

    open spec fn view(&self) -> TodoListView {
        TodoListView {
            todos: views(todo_items(self.todos)),
            next_id: self.next_id,
            stats: self.stats,
        }
    }
}

impl TodoListView {
    /// The list of an owner for whom nothing was created yet.
    pub open spec fn initial() -> TodoListView {
        TodoListView {
            todos: Seq::<TodoView>::empty(),
            next_id: 0,
            stats: stats_of(Seq::<TodoView>::empty()),
        }
    }

    /// What every list satisfies: it is within capacity, each todo is
    /// valid and has an id below the next one to hand out, no id occurs
    /// twice, and the statistics are those of the todos.
    pub open spec fn valid(self) -> bool {
        &&& self.todos.len() <= MAX_TODOS_PER_ACCOUNT
        &&& forall|i: int|
            0 <= i < self.todos.len() ==> (#[trigger] self.todos[i]).valid() && self.todos[i].id
                < self.next_id
        &&& forall|i: int, j: int|
            0 <= i < j < self.todos.len() ==> (#[trigger] self.todos[i]).id != (
            #[trigger] self.todos[j]).id
        &&& self.stats == stats_of(self.todos)
    }

    /// Whether some todo has the id `id`.
    pub open spec fn contains_id(self, id: u64) -> bool {
        exists|i: int| self.is_position(id, i)
    }

    /// Whether `i` is the first position at which a todo has the id `id`.
    pub open spec fn is_position(self, id: u64, i: int) -> bool {
        &&& 0 <= i < self.todos.len()
        &&& self.todos[i].id == id
        &&& forall|j: int| 0 <= j < i ==> (#[trigger] self.todos[j]).id != id
    }

    /// The first position at which a todo has the id `id`, where there is
    /// one.
    pub open spec fn position(self, id: u64) -> int {
        choose|i: int| self.is_position(id, i)
    }

    /// This list with other todos, and the statistics that go with them.
    pub open spec fn with_todos(self, todos: Seq<TodoView>) -> TodoListView {
        TodoListView { todos, next_id: self.next_id, stats: stats_of(todos) }
    }

    /// Whether a todo with this title and description can be created, and
    /// the id it gets. The title is judged first, then the description,
    /// then the room that is left.
    pub open spec fn create_outcome(self, title: Seq<u8>, description: Seq<u8>) -> Result<
        u64,
        Error,
    > {
        if title.len() > MAX_TITLE_LENGTH {
            Err(Error::TitleTooLong)
        } else if description.len() > MAX_DESCRIPTION_LENGTH {
            Err(Error::DescriptionTooLong)
        } else if self.todos.len() >= MAX_TODOS_PER_ACCOUNT {
            Err(Error::TodoListFull)
        } else {
            Ok(self.next_id)
        }
    }

    /// This list after a successful creation at time `now`: the new todo
    /// stands last and has the id that was next, and the next id is one
    /// higher.
    pub open spec fn created(
        self,
        title: Seq<u8>,
        description: Seq<u8>,
        priority: Priority,
        now: u64,
    ) -> TodoListView {
        let todos = self.todos.push(
            TodoView::fresh(self.next_id, title, description, priority, now),
        );
        TodoListView { todos, next_id: (self.next_id + 1) as u64, stats: stats_of(todos) }
    }

    /// Whether the todo `id` can be changed as asked. That the todo exists
    /// is judged first, then the title, then the description.
    pub open spec fn update_outcome(
        self,
        id: u64,
        title: Option<Seq<u8>>,
        description: Option<Seq<u8>>,
    ) -> Result<(), Error> {
        if !self.contains_id(id) {
            Err(Error::TodoNotFound)
        } else if title is Some && title->0.len() > MAX_TITLE_LENGTH {
            Err(Error::TitleTooLong)
        } else if description is Some && description->0.len() > MAX_DESCRIPTION_LENGTH {
            Err(Error::DescriptionTooLong)
        } else {
            Ok(())
        }
    }

    /// This list after a successful update of the todo `id` at time `now`.
    pub open spec fn updated(
        self,
        id: u64,
        title: Option<Seq<u8>>,
        description: Option<Seq<u8>>,
        priority: Option<Priority>,
        now: u64,
    ) -> TodoListView {
        let at = self.position(id);
        self.with_todos(
            self.todos.update(at, self.todos[at].patched(title, description, priority, now)),
        )
    }

    /// This list after the completion of the todo `id` was toggled at time
    /// `now`.
    pub open spec fn toggled(self, id: u64, now: u64) -> TodoListView {
        let at = self.position(id);
        self.with_todos(self.todos.update(at, self.todos[at].toggled(now)))
    }

    /// This list after the todo `id` was deleted: the todos behind it move
    /// up, and nothing else changes.
    pub open spec fn deleted(self, id: u64) -> TodoListView {
        self.with_todos(self.todos.remove(self.position(id)))
    }
}

/// The bytes of an optional byte vector.
pub open spec fn bytes_of(bytes: Option<Vec<u8>>) -> Option<Seq<u8>> {
    match bytes {
        Some(b) => Some(b@),
        None => None,
    }
}

/// The first position of an id is the only position that is first.
pub proof fn lemma_position_is_unique(list: TodoListView, id: u64, i: int)
    requires
        list.is_position(id, i),
    ensures
        list.contains_id(id),
        list.position(id) == i,
{
    let p = list.position(id);
    assert(list.is_position(id, p));
    if p < i {
        assert(list.todos[p].id != id);
    }
    if i < p {
        assert(list.todos[i].id != id);
    }
}

impl TodoList {
    /// Whether this list satisfies what every list satisfies.
    pub open spec fn wf(&self) -> bool {
        self@.valid()
    }

    /// Whether this list is well formed, found by looking at all of it:
    /// for a list that comes from elsewhere than the operations below.
    pub fn is_valid(&self) -> (r: bool)
        ensures
            r == self.wf(),
    {
        let len: usize = todos_len(&self.todos);
        if len > MAX_TODOS_PER_ACCOUNT {
            return false;
        }
        let mut i: usize = 0;
        while i < len
            invariant
                len == self@.todos.len(),
                i <= len,
                forall|k: int|
                    0 <= k < i ==> (#[trigger] self@.todos[k]).valid() && self@.todos[k].id
                        < self.next_id,
                forall|a: int, b: int|
                    0 <= a < b < i ==> (#[trigger] self@.todos[a]).id != (
                    #[trigger] self@.todos[b]).id,
            decreases len - i,
        {
            let todo = todos_get(&self.todos, i);
            if !todo_is_valid(todo) || todo.id >= self.next_id {
                assert(!(self@.todos[i as int].valid() && self@.todos[i as int].id
                    < self.next_id));
                return false;
            }
            let mut j: usize = 0;
            while j < i
                invariant
                    len == self@.todos.len(),
                    j <= i < len,
                    *todo == todo_items(self.todos)[i as int],
                    forall|a: int| 0 <= a < j ==> (#[trigger] self@.todos[a]).id != todo.id,
                decreases i - j,
            {
                if todos_get(&self.todos, j).id == todo.id {
                    assert(self@.todos[j as int].id == self@.todos[i as int].id);
                    return false;
                }
                j = j + 1;
            }
            i = i + 1;
        }
        let stats = compute_stats(&self.todos);
        stats == self.stats
    }

    /// The first position at which a todo has the id `id`, or `None` where
    /// no todo has it.
    pub fn find_position(&self, id: u64) -> (r: Option<usize>)
        ensures
            r is Some <==> self@.contains_id(id),
            r is Some ==> r->0 == self@.position(id) && self@.is_position(id, r->0 as int),
    {
        let len: usize = todos_len(&self.todos);
        let mut i: usize = 0;
        while i < len
            invariant
                len == self@.todos.len(),
                i <= len,
                forall|j: int| 0 <= j < i ==> (#[trigger] self@.todos[j]).id != id,
            decreases len - i,
        {
            if todos_get(&self.todos, i).id == id {
                proof {
                    lemma_position_is_unique(self@, id, i as int);
                }
                return Some(i);
            }
            i = i + 1;
        }
        None
    }
}

/// Whether a todo is valid: both texts within their bounds, and a
/// completion time exactly when it is completed.
pub fn todo_is_valid(todo: &Todo) -> (r: bool)
    ensures
        r == todo@.valid(),
{
    title_len(&todo.title) <= MAX_TITLE_LENGTH && description_len(&todo.description)
        <= MAX_DESCRIPTION_LENGTH && todo.completed_at.is_some() == todo.completed
}

/// The list of an owner for whom nothing was created yet: no todos, the
/// first id still to hand out, and all counts at zero.
pub fn initialize_todo_list() -> (list: TodoList)
    ensures
        list.wf(),
        list@ == TodoListView::initial(),
{
    let todos = todos_new();
    let stats = compute_stats(&todos);
    let list = TodoList { todos, next_id: 0, stats };
    proof {
        assert(list@.todos =~= Seq::<TodoView>::empty());
    }
    list
}

/// Creates a todo at time `now` and returns its id.
///
/// Fails, and changes nothing, when the title is too long, else when the
/// description is too long, else when the list is full.
pub fn create_todo(
    list: &mut TodoList,
    title: Vec<u8>,
    description: Vec<u8>,
    priority: Priority,
    now: u64,
) -> (r: Result<u64, Error>)
    requires
        old(list).wf(),
        old(list).next_id < u64::MAX,
    ensures
        final(list).wf(),
        r == old(list)@.create_outcome(title@, description@),
        r is Ok ==> final(list)@ == old(list)@.created(title@, description@, priority, now),
        r is Err ==> *final(list) == *old(list),
{
    let title: Title = match bound_title(title) {
        Ok(t) => t,
        Err(_) => {
            return Err(Error::TitleTooLong);
        },
    };
    let description: Description = match bound_description(description) {
        Ok(d) => d,
        Err(_) => {
            return Err(Error::DescriptionTooLong);
        },
    };
    let id: u64 = list.next_id;
    let todo = Todo {
        id,
        title,
        description,
        completed: false,
        priority,
        created_at: now,
        updated_at: now,
        completed_at: None,
    };
    let ghost before = list@;
    let ghost added = todo@;
    match todos_try_push(&mut list.todos, todo) {
        Ok(()) => {},
        Err(_) => {
            return Err(Error::TodoListFull);
        },
    }
    list.next_id = id + 1;
    list.stats = compute_stats(&list.todos);
    proof {
        assert(list@.todos =~= before.todos.push(added));
    }
    Ok(id)
}

/// Changes the todo `id` at time `now`: each field that is given replaces
/// the old one, the others stay.
///
/// Fails, and changes nothing, when there is no such todo, else when a
/// title is given and too long, else when a description is given and too
/// long.
pub fn update_todo(
    list: &mut TodoList,
    id: u64,
    title: Option<Vec<u8>>,
    description: Option<Vec<u8>>,
    priority: Option<Priority>,
    now: u64,
) -> (r: Result<(), Error>)
    requires
        old(list).wf(),
    ensures
        final(list).wf(),
        r == old(list)@.update_outcome(id, bytes_of(title), bytes_of(description)),
        r is Ok ==> final(list)@ == old(list)@.updated(
            id,
            bytes_of(title),
            bytes_of(description),
            priority,
            now,
        ),
        r is Err ==> *final(list) == *old(list),
{
    let at: usize = match list.find_position(id) {
        Some(at) => at,
        None => {
            return Err(Error::TodoNotFound);
        },
    };
    let new_title: Option<Title> = match title {
        Some(bytes) => match bound_title(bytes) {
            Ok(t) => Some(t),
            Err(_) => {
                return Err(Error::TitleTooLong);
            },
        },
        None => None,
    };
    let new_description: Option<Description> = match description {
        Some(bytes) => match bound_description(bytes) {
            Ok(d) => Some(d),
            Err(_) => {
                return Err(Error::DescriptionTooLong);
            },
        },
        None => None,
    };
    let ghost before = list@;
    let todo = todos_get_mut(&mut list.todos, at);
    match new_title {
        Some(t) => {
            todo.title = t;
        },
        None => {},
    }
    match new_description {
        Some(d) => {
            todo.description = d;
        },
        None => {},
    }
    match priority {
        Some(p) => {
            todo.priority = p;
        },
        None => {},
    }
    todo.updated_at = now;
    list.stats = compute_stats(&list.todos);
    proof {
        assert(list@.todos =~= before.todos.update(
            at as int,
            before.todos[at as int].patched(bytes_of(title), bytes_of(description), priority, now),
        ));
    }
    Ok(())
}

/// Toggles the completion of the todo `id` at time `now` and returns
/// whether it is completed afterwards.
///
/// Fails, and changes nothing, when there is no such todo.
pub fn toggle_todo_completion(list: &mut TodoList, id: u64, now: u64) -> (r: Result<bool, Error>)
    requires
        old(list).wf(),
    ensures
        final(list).wf(),
        r is Ok <==> old(list)@.contains_id(id),
        r is Err ==> r == Err::<bool, Error>(Error::TodoNotFound) && *final(list) == *old(list),
        r is Ok ==> final(list)@ == old(list)@.toggled(id, now) && r->Ok_0 == !old(
            list,
        )@.todos[old(list)@.position(id)].completed,
{
    let at: usize = match list.find_position(id) {
        Some(at) => at,
        None => {
            return Err(Error::TodoNotFound);
        },
    };
    let ghost before = list@;
    let todo = todos_get_mut(&mut list.todos, at);
    let completed: bool = !todo.completed;
    todo.completed = completed;
    todo.updated_at = now;
    if completed {
        todo.completed_at = Some(now);
    } else {
        todo.completed_at = None;
    }
    list.stats = compute_stats(&list.todos);
    proof {
        assert(list@.todos =~= before.todos.update(
            at as int,
            before.todos[at as int].toggled(now),
        ));
    }
    Ok(completed)
}

/// Deletes the todo `id`. The other todos keep their ids and their order.
///
/// Fails, and changes nothing, when there is no such todo.
pub fn delete_todo(list: &mut TodoList, id: u64) -> (r: Result<(), Error>)
    requires
        old(list).wf(),
    ensures
        final(list).wf(),
        r is Ok <==> old(list)@.contains_id(id),
        r is Err ==> r == Err::<(), Error>(Error::TodoNotFound) && *final(list) == *old(list),
        r is Ok ==> final(list)@ == old(list)@.deleted(id),
{
    let at: usize = match list.find_position(id) {
        Some(at) => at,
        None => {
            return Err(Error::TodoNotFound);
        },
    };
    let ghost before = list@;
    let _ = todos_remove(&mut list.todos, at);
    list.stats = compute_stats(&list.todos);
    proof {
        assert(list@.todos =~= before.todos.remove(at as int));
    }
    Ok(())
}

/// The statistics of the list, from one scan over its todos.
pub fn get_todo_stats(list: &TodoList) -> (stats: TodoStatistics)
    requires
        list.wf(),
    ensures
        stats == stats_of(list@.todos),
        stats == list@.stats,
{
    compute_stats(&list.todos)
}

} // verus!
