//! The mathematical model of the store: the value of the collection state,
//! its invariant, and one transition predicate for each store operation.

use vstd::prelude::*;
use crate::locator::substituted;
use crate::todo::{Todo, TodoEditView, TodoInputView, TodoView};

verus! {

/// Mathematical value of the collection state: the id counter and the items
/// in insertion order.
#[verifier::ext_equal]
pub struct StoreView {
    pub next_id: int,
    pub items: Seq<TodoView>,
}

/// The values of a sequence of entries, in the same order.
pub open spec fn views_of(s: Seq<Todo>) -> Seq<TodoView> {
    s.map_values(|t: Todo| t@)
}

/// The store's invariant: the counter fits the machine, every id was handed
/// out below the counter, and no two items share an id.
pub open spec fn store_wf(s: StoreView) -> bool {
    &&& 0 <= s.next_id <= usize::MAX
    &&& forall|i: int| 0 <= i < s.items.len() ==> 0 <= #[trigger] s.items[i].id < s.next_id
    &&& forall|i: int, j: int|
        0 <= i < j < s.items.len() ==> #[trigger] s.items[i].id != #[trigger] s.items[j].id
}

/// Whether some item of `items` carries the id `id`.
pub open spec fn contains_id(items: Seq<TodoView>, id: int) -> bool {
    exists|i: int| 0 <= i < items.len() && (#[trigger] items[i]).id == id
}

/// The entry that a create with payload `input` and locator template
/// `template` adds to the store `pre`.
pub open spec fn created_item(pre: StoreView, input: TodoInputView, template: Seq<char>) -> TodoView {
    TodoView {
        id: pre.next_id,
        title: input.title,
        completed: false,
        order: input.order,
        location: substituted(template, pre.next_id as nat),
    }
}

/// A read left the store as it was.
pub open spec fn same_store(pre: StoreView, post: StoreView) -> bool {
    &&& post.next_id == pre.next_id
    &&& post.items == pre.items
}

/// A create appended the new entry and advanced the counter by one.
pub open spec fn create_transition(
    pre: StoreView,
    post: StoreView,
    input: TodoInputView,
    template: Seq<char>,
) -> bool {
    &&& post.next_id == pre.next_id + 1
    &&& post.items == pre.items.push(created_item(pre, input, template))
}

/// A clear-all emptied the items and kept the counter.
pub open spec fn clear_transition(pre: StoreView, post: StoreView) -> bool {
    &&& post.next_id == pre.next_id
    &&& post.items == Seq::<TodoView>::empty()
}

/// A delete removed the matching item if one was present, and otherwise
/// changed nothing; the counter is kept either way.
pub open spec fn delete_transition(pre: StoreView, post: StoreView, id: int) -> bool {
    &&& post.next_id == pre.next_id
    &&& if contains_id(pre.items, id) {
        exists|i: int|
            0 <= i < pre.items.len() && (#[trigger] pre.items[i]).id == id && post.items
                == pre.items.remove(i)
    } else {
        post.items == pre.items
    }
}

/// The entry `t` with the present fields of the partial payload `e` applied
/// and the absent ones kept; id and location never change.
pub open spec fn apply_edit(t: TodoView, e: TodoEditView) -> TodoView {
    TodoView {
        id: t.id,
        title: match e.title {
            Some(title) => title,
            None => t.title,
        },
        completed: match e.completed {
            Some(completed) => completed,
            None => t.completed,
        },
        order: match e.order {
            Some(order) => Some(order),
            None => t.order,
        },
        location: t.location,
    }
}

/// An edit rewrote the matching item in place if one was present, and
/// otherwise changed nothing; the counter is kept either way.
pub open spec fn edit_transition(pre: StoreView, post: StoreView, id: int, e: TodoEditView) -> bool {
    &&& post.next_id == pre.next_id
    &&& if contains_id(pre.items, id) {
        exists|i: int|
            0 <= i < pre.items.len() && (#[trigger] pre.items[i]).id == id && post.items
                == pre.items.update(i, apply_edit(pre.items[i], e))
    } else {
        post.items == pre.items
    }
}

} // verus!
