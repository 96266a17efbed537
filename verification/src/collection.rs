//! The store itself: one owner of the collection state, whose operations
//! are each proved against the transition predicates of the model.

use vstd::prelude::*;
use std::sync::mpsc::{Receiver, SyncSender};
use crate::channel::{channel_recv, channel_send};
use crate::locator::render_location;
use crate::model::{
    apply_edit, clear_transition, contains_id, create_transition, created_item,
    delete_transition, edit_transition, same_store, store_wf, views_of, StoreView,
};
use crate::todo::{Todo, TodoEdit, TodoInput, TodoView};

verus! {

/// One command for the actor: the operation's input, if any, together with
/// the single-use reply slot typed to that operation's result.
pub enum CollectionMessages {
    GetList(SyncSender<Vec<Todo>>),
    PostList(TodoInput, String, SyncSender<Todo>),
    DeleteList(SyncSender<bool>),
    GetItem(usize, SyncSender<Option<Todo>>),
    DeleteItem(usize, SyncSender<Option<bool>>),
    PatchItem(usize, TodoEdit, SyncSender<Option<Todo>>),
}

/// The collection state: an id counter and the items in insertion order.
/// It is meant to be owned by a single actor and reached only through
/// messages; nothing else ever mutates it.
pub struct TodoCollection {
    pub next_id: usize,
    pub todos: Vec<Todo>,
}

impl View for TodoCollection {
    type V = StoreView;

    open spec fn view(&self) -> StoreView {
        StoreView { next_id: self.next_id as int, items: views_of(self.todos@) }
    }
}

impl TodoCollection {
    /// An empty store whose counter starts at zero.
    pub fn new() -> (c: TodoCollection)
        ensures
            c@.next_id == 0,
            c@.items == Seq::<TodoView>::empty(),
            store_wf(c@),
    {
        let c = TodoCollection { next_id: 0, todos: Vec::new() };
        proof {
            assert(c@.items =~= Seq::<TodoView>::empty());
        }
        c
    }

    /// A snapshot copy of all items, in insertion order.
    pub fn get_list(&self) -> (r: Vec<Todo>)
        ensures
            views_of(r@) == self@.items,
    {
        let mut out: Vec<Todo> = Vec::new();
        let mut i: usize = 0;
        while i < self.todos.len()
            invariant
                i <= self.todos.len(),
                views_of(out@) == self@.items.take(i as int),
            decreases self.todos.len() - i,
        {
            proof {
                assert(views_of(out@).len() == out@.len());
            }
            out.push(self.todos[i].clone());
            proof {
                assert(views_of(out@) =~= self@.items.take(i as int + 1));
            }
            i = i + 1;
        }
        proof {
            assert(views_of(out@) =~= self@.items);
        }
        out
    }

    /// Creates one item: assigns the current counter value as its id,
    /// renders its location from the template, appends it, and advances the
    /// counter.
    pub fn post_list(&mut self, todo_input: TodoInput, url_template: String) -> (todo: Todo)
        requires
            store_wf(old(self)@),
            old(self).next_id < usize::MAX,
        ensures
            store_wf(final(self)@),
            create_transition(old(self)@, final(self)@, todo_input@, url_template@),
            todo@ == created_item(old(self)@, todo_input@, url_template@),
    {
        let id = self.next_id;
        let location = render_location(url_template.as_str(), id);
        let todo = Todo::new(id, todo_input.title, todo_input.order, location);
        self.next_id = id + 1;
        self.todos.push(todo.clone());
        proof {
            assert(todo@ =~= created_item(old(self)@, todo_input@, url_template@));
            assert(self@.items =~= old(self)@.items.push(todo@));
            assert forall|k: int, l: int|
                0 <= k < l < self@.items.len() implies self@.items[k].id != self@.items[l].id by {
                if l < old(self)@.items.len() {
                    assert(old(self)@.items[k].id != old(self)@.items[l].id);
                }
            }
        }
        todo
    }

    /// Removes every item; the counter is deliberately kept, so ids are
    /// never reused.
    pub fn delete_list(&mut self) -> (r: bool)
        requires
            store_wf(old(self)@),
        ensures
            store_wf(final(self)@),
            clear_transition(old(self)@, final(self)@),
            r == true,
    {
        self.todos.clear();
        proof {
            assert(self@.items =~= Seq::<TodoView>::empty());
        }
        true
    }

    /// The position and entry of the first item carrying `id`, if any; by
    /// the store invariant there is at most one.
    pub fn find(&self, id: usize) -> (r: Option<(usize, &Todo)>)
        ensures
            match r {
                Some(p) => {
                    &&& (p.0 as int) < self@.items.len()
                    &&& self@.items[p.0 as int].id == id as int
                    &&& (p.1)@ == self@.items[p.0 as int]
                    &&& forall|j: int| 0 <= j < p.0 as int ==> self@.items[j].id != id as int
                },
                None => !contains_id(self@.items, id as int),
            },
    {
        let mut i: usize = 0;
        while i < self.todos.len()
            invariant
                i <= self.todos.len(),
                forall|j: int| 0 <= j < i as int ==> self@.items[j].id != id as int,
            decreases self.todos.len() - i,
        {
            if self.todos[i].id == id {
                return Some((i, &self.todos[i]));
            }
            i = i + 1;
        }
        None
    }

    /// A copy of the item carrying `id`, or nothing when no item does.
    pub fn get_item(&self, id: usize) -> (r: Option<Todo>)
        ensures
            match r {
                Some(t) => exists|i: int|
                    0 <= i < self@.items.len() && (#[trigger] self@.items[i]).id == id as int
                        && t@ == self@.items[i],
                None => !contains_id(self@.items, id as int),
            },
    {
        match self.find(id) {
            Some((_i, todo)) => Some(todo.clone()),
            None => None,
        }
    }

    /// Removes the item carrying `id` and reports the removal, or reports
    /// "not found" and changes nothing.
    pub fn delete_item(&mut self, id: usize) -> (r: Option<bool>)
        requires
            store_wf(old(self)@),
        ensures
            store_wf(final(self)@),
            delete_transition(old(self)@, final(self)@, id as int),
            r == (if contains_id(old(self)@.items, id as int) {
                Some(true)
            } else {
                None::<bool>
            }),
    {
        let idx = match self.find(id) {
            Some((i, _t)) => i,
            None => {
                return None;
            },
        };
        let _removed = self.todos.remove(idx);
        proof {
            assert(self@.items =~= old(self)@.items.remove(idx as int));
            assert forall|k: int, l: int|
                0 <= k < l < self@.items.len() implies self@.items[k].id != self@.items[l].id by {
                let k0: int = if k < idx as int { k } else { k + 1 };
                let l0: int = if l < idx as int { l } else { l + 1 };
                assert(old(self)@.items[k0].id != old(self)@.items[l0].id);
            }
        }
        Some(true)
    }

    /// Applies the present fields of the partial payload to the item
    /// carrying `id` and returns its full post-edit state, or reports "not
    /// found" and changes nothing.
    pub fn patch_item(&mut self, id: usize, todo_edit: TodoEdit) -> (r: Option<Todo>)
        requires
            store_wf(old(self)@),
        ensures
            store_wf(final(self)@),
            edit_transition(old(self)@, final(self)@, id as int, todo_edit@),
            match r {
                Some(t) => exists|i: int|
                    0 <= i < old(self)@.items.len() && (#[trigger] old(self)@.items[i]).id
                        == id as int && t@ == apply_edit(
                        old(self)@.items[i],
                        todo_edit@,
                    ),
                None => !contains_id(old(self)@.items, id as int),
            },
    {
        let idx = match self.find(id) {
            Some((i, _t)) => i,
            None => {
                return None;
            },
        };
        let ghost e = todo_edit@;
        let mut item = self.todos[idx].clone();
        let TodoEdit { title: e_title, completed: e_completed, order: e_order } = todo_edit;
        match e_title {
            Some(title) => {
                item.title = title;
            },
            None => {},
        }
        match e_completed {
            Some(completed) => {
                item.completed = completed;
            },
            None => {},
        }
        match e_order {
            Some(order) => {
                item.order = Some(order);
            },
            None => {},
        }
        proof {
            assert(item@ =~= apply_edit(old(self)@.items[idx as int], e));
        }
        self.todos[idx] = item.clone();
        proof {
            assert(self@.items =~= old(self)@.items.update(idx as int, item@));
            assert forall|k: int, l: int|
                0 <= k < l < self@.items.len() implies self@.items[k].id != self@.items[l].id by {
                assert(old(self)@.items[k].id != old(self)@.items[l].id);
                assert(self@.items[k].id == old(self)@.items[k].id);
                assert(self@.items[l].id == old(self)@.items[l].id);
            }
        }
        Some(item)
    }

    /// Serves one command fully: applies the operation and writes the reply
    /// slot before anything else can be observed. A reply slot that nobody
    /// listens to anymore is simply discarded.
    pub fn execute(&mut self, message: CollectionMessages)
        requires
            store_wf(old(self)@),
        ensures
            store_wf(final(self)@),
            final(self)@.next_id >= old(self)@.next_id,
            message matches CollectionMessages::GetList(_) ==> same_store(
                old(self)@,
                final(self)@,
            ),
            message matches CollectionMessages::PostList(input, template, _) ==> (
            if old(self)@.next_id < usize::MAX as int {
                create_transition(old(self)@, final(self)@, input@, template@)
            } else {
                same_store(old(self)@, final(self)@)
            }),
            message matches CollectionMessages::DeleteList(_) ==> clear_transition(
                old(self)@,
                final(self)@,
            ),
            message matches CollectionMessages::GetItem(_, _) ==> same_store(
                old(self)@,
                final(self)@,
            ),
            message matches CollectionMessages::DeleteItem(id, _) ==> delete_transition(
                old(self)@,
                final(self)@,
                id as int,
            ),
            message matches CollectionMessages::PatchItem(id, edit, _) ==> edit_transition(
                old(self)@,
                final(self)@,
                id as int,
                edit@,
            ),
    {
        match message {
            CollectionMessages::GetList(reply) => {
                let list = self.get_list();
                let _ = channel_send(&reply, list);
            },
            CollectionMessages::PostList(todo_input, url_template, reply) => {
                if self.next_id < usize::MAX {
                    let todo = self.post_list(todo_input, url_template);
                    let _ = channel_send(&reply, todo);
                }
                // with the counter exhausted, the reply slot is dropped
                // unanswered and the caller sees a closed channel
            },
            CollectionMessages::DeleteList(reply) => {
                let ok = self.delete_list();
                let _ = channel_send(&reply, ok);
            },
            CollectionMessages::GetItem(id, reply) => {
                let item = self.get_item(id);
                let _ = channel_send(&reply, item);
            },
            CollectionMessages::DeleteItem(id, reply) => {
                let removed = self.delete_item(id);
                let _ = channel_send(&reply, removed);
            },
            CollectionMessages::PatchItem(id, todo_edit, reply) => {
                let item = self.patch_item(id, todo_edit);
                let _ = channel_send(&reply, item);
            },
        }
    }
}

/// One turn of the actor: blocks for the next command from the mailbox and
/// serves it completely, reply included, or reports that every handle is
/// gone. A store from [`TodoCollection::new`] satisfies the invariant this
/// asks for, and each turn preserves it, so a caller may simply repeat
/// this until it reports no more commands.
pub fn serve_next(
    collection: &mut TodoCollection,
    rx: &Receiver<CollectionMessages>,
) -> (more: bool)
    requires
        store_wf(old(collection)@),
    ensures
        store_wf(final(collection)@),
        final(collection)@.next_id >= old(collection)@.next_id,
        !more ==> same_store(old(collection)@, final(collection)@),
{
    match channel_recv(rx) {
        Some(message) => {
            collection.execute(message);
            true
        },
        None => false,
    }
}

} // verus!
