//! The lists of all owners, each reached by its owner's account id.
//!
//! An owner that was never heard of has the empty list. What is done for
//! one owner leaves every other owner's list as it was.

use vstd::prelude::*;
use std::collections::HashMap;
use crate::bounded::Todos;
use crate::error::Error;
use crate::list::{bytes_of, initialize_todo_list, TodoList, TodoListView};
use crate::stats::TodoStatistics;
use crate::todo::Priority;

verus! {

broadcast use vstd::std_specs::hash::group_hash_axioms;

/// What a successful operation reports.
#[derive(Clone, Copy, Debug, PartialEq, Eq, Structural)]
pub enum Event {
    /// A todo was created.
    TodoCreated { who: u64, id: u64 },
    /// A todo was updated.
    TodoUpdated { who: u64, id: u64 },
    /// A todo's completion status was toggled.
    TodoCompletionToggled { who: u64, id: u64, completed: bool },
    /// A todo was deleted.
    TodoDeleted { who: u64, id: u64 },
}

/// The todo lists of all owners.
pub struct Pallet {
    /// The lists of the owners for whom a todo was ever created.
    pub lists: HashMap<u64, TodoList>,
    /// The list that stands for every other owner.
    pub empty: TodoList,
}

impl Pallet {
    /// Every list is well formed, and the list of the unknown owners is
    /// the empty one.
    pub open spec fn wf(&self) -> bool {
        &&& self.empty.wf()
        &&& self.empty@ == TodoListView::initial()
        &&& forall|who: u64| #[trigger]
            self.lists@.contains_key(who) ==> self.lists@[who].wf()
    }

    /// The list of `who`.
    pub open spec fn list_of(&self, who: u64) -> TodoList {
        if self.lists@.contains_key(who) {
            self.lists@[who]
        } else {
            self.empty
        }
    }

    /// The list of `who` as plain data.
    pub open spec fn state(&self, who: u64) -> TodoListView {
        self.list_of(who)@
    }

    /// Whether nothing at all differs between `self` and `before`.
    pub open spec fn unchanged_since(&self, before: &Pallet) -> bool {
        &&& self.lists@ == before.lists@
        &&& self.empty == before.empty
    }

    /// Whether every owner but `who` has the list it had in `before`.
    pub open spec fn others_kept_since(&self, before: &Pallet, who: u64) -> bool {
        forall|other: u64| other != who ==> #[trigger] self.list_of(other) == before.list_of(other)
    }

    /// What `create_todo` returns for `who` in this state.
    pub open spec fn create_result(
        &self,
        who: u64,
        title: Seq<u8>,
        description: Seq<u8>,
    ) -> Result<Event, Error> {
        match self.state(who).create_outcome(title, description) {
            Ok(id) => Ok(Event::TodoCreated { who, id }),
            Err(e) => Err(e),
        }
    }

    /// What `update_todo` returns for `who` in this state.
    pub open spec fn update_result(
        &self,
        who: u64,
        id: u64,
        title: Option<Seq<u8>>,
        description: Option<Seq<u8>>,
    ) -> Result<Event, Error> {
        match self.state(who).update_outcome(id, title, description) {
            Ok(_) => Ok(Event::TodoUpdated { who, id }),
            Err(e) => Err(e),
        }
    }

    /// What `toggle_todo_completion` returns for `who` in this state.
    pub open spec fn toggle_result(&self, who: u64, id: u64) -> Result<Event, Error> {
        let list = self.state(who);
        if list.contains_id(id) {
            Ok(
                Event::TodoCompletionToggled {
                    who,
                    id,
                    completed: !list.todos[list.position(id)].completed,
                },
            )
        } else {
            Err(Error::TodoNotFound)
        }
    }

    /// What `delete_todo` returns for `who` in this state.
    pub open spec fn delete_result(&self, who: u64, id: u64) -> Result<Event, Error> {
        if self.state(who).contains_id(id) {
            Ok(Event::TodoDeleted { who, id })
        } else {
            Err(Error::TodoNotFound)
        }
    }

    /// No owner has a todo yet.
    pub fn new() -> (pallet: Pallet)
        ensures
            pallet.wf(),
            pallet.lists@ == Map::<u64, TodoList>::empty(),
            forall|who: u64| #[trigger] pallet.state(who) == TodoListView::initial(),
    {
        Pallet { lists: HashMap::new(), empty: initialize_todo_list() }
    }

    /// The list of `who`: the empty one where `who` is unknown.
    pub fn list(&self, who: u64) -> (list: &TodoList)
        ensures
            *list == self.list_of(who),
    {
        match self.lists.get(&who) {
            Some(list) => list,
            None => &self.empty,
        }
    }

    /// The todos of `who`, oldest first.
    pub fn todos(&self, who: u64) -> (todos: &Todos)
        ensures
            *todos == self.list_of(who).todos,
    {
        &self.list(who).todos
    }

    /// The id that the next todo of `who` gets.
    pub fn next_id(&self, who: u64) -> (id: u64)
        ensures
            id == self.state(who).next_id,
    {
        self.list(who).next_id
    }

    /// The statistics of `who` as the last operation left them.
    pub fn todo_stats(&self, who: u64) -> (stats: TodoStatistics)
        ensures
            stats == self.state(who).stats,
    {
        self.list(who).stats
    }

    /// Creates a todo for `who` at time `now`.
    ///
    /// Fails, and changes nothing, when the title is too long, else when
    /// the description is too long, else when `who` has no room left.
    pub fn create_todo(
        &mut self,
        who: u64,
        title: Vec<u8>,
        description: Vec<u8>,
        priority: Priority,
        now: u64,
    ) -> (r: Result<Event, Error>)
        requires
            old(self).wf(),
            old(self).state(who).next_id < u64::MAX,
        ensures
            final(self).wf(),
            final(self).others_kept_since(old(self), who),
            final(self).empty == old(self).empty,
            r == old(self).create_result(who, title@, description@),
            r is Ok ==> final(self).state(who) == old(self).state(who).created(
                title@,
                description@,
                priority,
                now,
            ),
            r is Err ==> final(self).unchanged_since(old(self)),
    {
        let ghost before = self.lists@;
        let (mut list, known) = match self.lists.remove(&who) {
            Some(list) => (list, true),
            None => (initialize_todo_list(), false),
        };
        match crate::list::create_todo(&mut list, title, description, priority, now) {
            Ok(id) => {
                self.lists.insert(who, list);
                Ok(Event::TodoCreated { who, id })
            },
            Err(e) => {
                if known {
                    self.lists.insert(who, list);
                }
                proof {
                    assert(self.lists@ =~= before);
                }
                Err(e)
            },
        }
    }

    /// Changes the todo `id` of `who` at time `now`: each field that is
    /// given replaces the old one, the others stay.
    ///
    /// Fails, and changes nothing, when `who` has no such todo, else when
    /// a title is given and too long, else when a description is given
    /// and too long.
    pub fn update_todo(
        &mut self,
        who: u64,
        id: u64,
        title: Option<Vec<u8>>,
        description: Option<Vec<u8>>,
        priority: Option<Priority>,
        now: u64,
    ) -> (r: Result<Event, Error>)
        requires
            old(self).wf(),
        ensures
            final(self).wf(),
            final(self).others_kept_since(old(self), who),
            final(self).empty == old(self).empty,
            r == old(self).update_result(who, id, bytes_of(title), bytes_of(description)),
            r is Ok ==> final(self).state(who) == old(self).state(who).updated(
                id,
                bytes_of(title),
                bytes_of(description),
                priority,
                now,
            ),
            r is Err ==> final(self).unchanged_since(old(self)),
    {
        let ghost before = self.lists@;
        let mut list = match self.lists.remove(&who) {
            Some(list) => list,
            None => {
                proof {
                    assert(self.lists@ =~= before);
                }
                return Err(Error::TodoNotFound);
            },
        };
        let r = crate::list::update_todo(&mut list, id, title, description, priority, now);
        self.lists.insert(who, list);
        match r {
            Ok(()) => Ok(Event::TodoUpdated { who, id }),
            Err(e) => {
                proof {
                    assert(self.lists@ =~= before);
                }
                Err(e)
            },
        }
    }

    /// Toggles the completion of the todo `id` of `who` at time `now`.
    ///
    /// Fails, and changes nothing, when `who` has no such todo.
    pub fn toggle_todo_completion(&mut self, who: u64, id: u64, now: u64) -> (r: Result<
        Event,
        Error,
    >)
        requires
            old(self).wf(),
        ensures
            final(self).wf(),
            final(self).others_kept_since(old(self), who),
            final(self).empty == old(self).empty,
            r == old(self).toggle_result(who, id),
            r is Ok ==> final(self).state(who) == old(self).state(who).toggled(id, now),
            r is Err ==> final(self).unchanged_since(old(self)),
    {
        let ghost before = self.lists@;
        let mut list = match self.lists.remove(&who) {
            Some(list) => list,
            None => {
                proof {
                    assert(self.lists@ =~= before);
                }
                return Err(Error::TodoNotFound);
            },
        };
        let r = crate::list::toggle_todo_completion(&mut list, id, now);
        self.lists.insert(who, list);
        match r {
            Ok(completed) => Ok(Event::TodoCompletionToggled { who, id, completed }),
            Err(e) => {
                proof {
                    assert(self.lists@ =~= before);
                }
                Err(e)
            },
        }
    }

    /// Deletes the todo `id` of `who`. The other todos keep their ids and
    /// their order, and the id is not handed out again.
    ///
    /// Fails, and changes nothing, when `who` has no such todo.
    pub fn delete_todo(&mut self, who: u64, id: u64) -> (r: Result<Event, Error>)
        requires
            old(self).wf(),
        ensures
            final(self).wf(),
            final(self).others_kept_since(old(self), who),
            final(self).empty == old(self).empty,
            r == old(self).delete_result(who, id),
            r is Ok ==> final(self).state(who) == old(self).state(who).deleted(id),
            r is Err ==> final(self).unchanged_since(old(self)),
    {
        let ghost before = self.lists@;
        let mut list = match self.lists.remove(&who) {
            Some(list) => list,
            None => {
                proof {
                    assert(self.lists@ =~= before);
                }
                return Err(Error::TodoNotFound);
            },
        };
        let r = crate::list::delete_todo(&mut list, id);
        self.lists.insert(who, list);
        match r {
            Ok(()) => Ok(Event::TodoDeleted { who, id }),
            Err(e) => {
                proof {
                    assert(self.lists@ =~= before);
                }
                Err(e)
            },
        }
    }
}

} // verus!
