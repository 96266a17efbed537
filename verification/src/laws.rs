//! Properties of the store, proved once over the transition predicates
//! that every operation's contract is stated with.

use vstd::prelude::*;
use crate::model::{
    apply_edit, clear_transition, contains_id, create_transition, created_item, delete_transition,
    edit_transition, same_store, store_wf, StoreView,
};
use crate::todo::{TodoEditView, TodoInputView, TodoView};

verus! {

/// Ids handed out by successive creates are strictly increasing with no
/// gaps: each create assigns exactly the counter value, and the counter
/// grows by one.
pub proof fn lemma_create_ids_consecutive(
    s0: StoreView,
    s1: StoreView,
    s2: StoreView,
    in1: TodoInputView,
    t1: Seq<char>,
    in2: TodoInputView,
    t2: Seq<char>,
)
    requires
        create_transition(s0, s1, in1, t1),
        create_transition(s1, s2, in2, t2),
    ensures
        created_item(s0, in1, t1).id == s0.next_id,
        created_item(s1, in2, t2).id == created_item(s0, in1, t1).id + 1,
{
}

/// A created id is fresh: it is strictly greater than the id of every item
/// already present, so no id is ever repeated.
pub proof fn lemma_create_id_fresh(s0: StoreView, s1: StoreView, input: TodoInputView, t: Seq<char>)
    requires
        store_wf(s0),
        s0.next_id < usize::MAX,
        create_transition(s0, s1, input, t),
    ensures
        !contains_id(s0.items, created_item(s0, input, t).id),
        forall|i: int|
            0 <= i < s0.items.len() ==> #[trigger] s0.items[i].id < created_item(s0, input, t).id,
        store_wf(s1),
{
    assert forall|i: int| 0 <= i < s1.items.len() implies 0 <= #[trigger] s1.items[i].id
        < s1.next_id by {
        if i < s0.items.len() {
            assert(s1.items[i] == s0.items[i]);
        }
    }
    assert forall|i: int, j: int| 0 <= i < j < s1.items.len() implies #[trigger] s1.items[i].id
        != #[trigger] s1.items[j].id by {
        if j < s0.items.len() {
            assert(s0.items[i].id != s0.items[j].id);
        } else {
            assert(s1.items[i].id == s0.items[i].id);
        }
    }
}

/// Clearing empties the list but never resets the counter: the next create
/// after a clear-all still assigns an id greater than every id previously
/// present.
pub proof fn lemma_clear_keeps_counter(
    s0: StoreView,
    s1: StoreView,
    s2: StoreView,
    input: TodoInputView,
    t: Seq<char>,
)
    requires
        store_wf(s0),
        clear_transition(s0, s1),
        create_transition(s1, s2, input, t),
    ensures
        s1.items.len() == 0,
        created_item(s1, input, t).id == s0.next_id,
        forall|i: int|
            0 <= i < s0.items.len() ==> #[trigger] s0.items[i].id < created_item(s1, input, t).id,
{
}

/// An id absent from the collection makes delete and edit no-ops: both
/// report "not found" through their operation's contract, and here the
/// collection's content is shown unchanged. (Fetch reads nothing but the
/// collection and leaves it untouched by its signature alone.)
pub proof fn lemma_missing_id_is_noop(
    pre: StoreView,
    post_delete: StoreView,
    post_edit: StoreView,
    x: int,
    e: TodoEditView,
)
    requires
        !contains_id(pre.items, x),
        delete_transition(pre, post_delete, x),
        edit_transition(pre, post_edit, x, e),
    ensures
        same_store(pre, post_delete),
        same_store(pre, post_edit),
{
}

/// An edit applies only the fields present in the partial payload: an
/// absent field keeps the item's value, and id and location never change.
pub proof fn lemma_edit_partial(t: TodoView, e: TodoEditView)
    ensures
        e.title is None ==> apply_edit(t, e).title == t.title,
        e.completed is None ==> apply_edit(t, e).completed == t.completed,
        e.order is None ==> apply_edit(t, e).order == t.order,
        apply_edit(t, e).id == t.id,
        apply_edit(t, e).location == t.location,
{
}

/// A payload that sets only the completion flag changes nothing else.
pub proof fn lemma_edit_only_completed(t: TodoView, e: TodoEditView)
    requires
        e.title is None,
        e.order is None,
        e.completed == Some(true),
    ensures
        apply_edit(t, e) == (TodoView { completed: true, ..t }),
{
}

/// In every well-formed store the items carry pairwise distinct ids: with
/// all operations serialized through the actor, no two items are ever
/// created with, or edited into, the same id.
pub proof fn lemma_ids_distinct(s: StoreView, i: int, j: int)
    requires
        store_wf(s),
        0 <= i < s.items.len(),
        0 <= j < s.items.len(),
        i != j,
    ensures
        s.items[i].id != s.items[j].id,
{
}

} // verus!
