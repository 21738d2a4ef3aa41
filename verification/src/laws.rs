use crate::clock::Timestamp;
use crate::id::TodoId;
use crate::model::{
    after_delete, after_update, distinct_ids, has_id, is_first_with_id,
    lemma_first_with_id_is_unique, lemma_position_of_is_first, lemma_push_fresh_id, listing,
    picks_in_order, position_of, update_time,
};
use crate::todo::{TodoFilter, TodoItem, TodoStatus};
use vstd::prelude::*;
use vstd::std_specs::cmp::PartialEqSpec;
use vstd::std_specs::convert::IntoSpec;

verus! {

/// Equality of statuses ignores the moment of completion: two completed
/// statuses are equal whenever they were completed, and an open status
/// equals no completed one.
pub proof fn lemma_status_eq_ignores_time(at: Timestamp, other_at: Timestamp)
    ensures
        TodoStatus::Completed(at).eq_spec(&TodoStatus::Completed(other_at)),
        TodoStatus::Uncompleted.eq_spec(&TodoStatus::Uncompleted),
        !TodoStatus::Uncompleted.eq_spec(&TodoStatus::Completed(at)),
        !TodoStatus::Completed(at).eq_spec(&TodoStatus::Uncompleted),
{
}

/// Equality of statuses is reflexive, symmetric and transitive.
pub proof fn lemma_status_eq_is_equivalence(a: TodoStatus, b: TodoStatus, c: TodoStatus)
    ensures
        a.eq_spec(&a),
        a.eq_spec(&b) == b.eq_spec(&a),
        a.eq_spec(&b) && b.eq_spec(&c) ==> a.eq_spec(&c),
{
}

/// A truth value survives the way into a status and back: whatever status
/// the conversion from `value` gives, converting it to `bool` gives `value`
/// again. `false` gives `Uncompleted`, `true` a `Completed`.
pub proof fn lemma_bool_round_trip(value: bool, status: TodoStatus)
    requires
        call_ensures(<TodoStatus as From<bool>>::from, (value,), status),
    ensures
        <TodoStatus as IntoSpec<bool>>::into_spec(status) == value,
        !value ==> status == TodoStatus::Uncompleted,
        value ==> status is Completed,
{
}

/// A status survives the way into `bool` and back up to equality of
/// statuses: the moment of completion is lost, open-or-completed is kept.
pub proof fn lemma_status_round_trip(status: TodoStatus, back: TodoStatus)
    requires
        call_ensures(
            <TodoStatus as From<bool>>::from,
            (<TodoStatus as IntoSpec<bool>>::into_spec(status),),
            back,
        ),
    ensures
        back.eq_spec(&status),
{
}

/// Identifiers stay distinct over any run of additions, as long as each new
/// identifier is new to the list it joins: that is, as long as the added
/// tasks differ in their identifiers from one another and from the tasks
/// that were there.
pub proof fn lemma_adds_keep_ids_distinct(before: Seq<TodoItem>, added: Seq<TodoItem>)
    requires
        distinct_ids(before),
        distinct_ids(added),
        forall|k: int| 0 <= k < added.len() ==> !has_id(before, #[trigger] added[k].id),
    ensures
        distinct_ids(before + added),
{
}

/// An added task is found again by its identifier, unchanged, and deleting
/// it gives back the list as it was, whenever the identifier was new to the
/// list.
pub proof fn lemma_delete_undoes_add(todos: Seq<TodoItem>, item: TodoItem)
    requires
        !has_id(todos, item.id),
    ensures
        todos.push(item).len() == todos.len() + 1,
        position_of(todos.push(item), item.id) == Some(todos.len() as int),
        todos.push(item)[todos.len() as int] == item,
        after_delete(todos.push(item), item.id) == todos,
{
    lemma_push_fresh_id(todos, item);
}

/// Deleting an identifier that no task carries changes nothing; deleting
/// one that some task carries makes the list one shorter.
pub proof fn lemma_delete_length(todos: Seq<TodoItem>, id: TodoId)
    ensures
        !has_id(todos, id) ==> after_delete(todos, id) == todos,
        has_id(todos, id) ==> after_delete(todos, id).len() == todos.len() - 1,
{
    lemma_position_of_is_first(todos, id);
}

/// In a list without repeated identifiers, deleting by identifier removes
/// the only task that carries it: the identifier is gone, every other task
/// is still there in its order, and identifiers stay distinct.
pub proof fn lemma_delete_removes_only_match(todos: Seq<TodoItem>, id: TodoId)
    requires
        distinct_ids(todos),
    ensures
        !has_id(after_delete(todos, id), id),
        distinct_ids(after_delete(todos, id)),
        position_of(todos, id) matches Some(index) ==> {
            &&& is_first_with_id(todos, id, index)
            &&& forall|i: int| 0 <= i < index ==> after_delete(todos, id)[i] == todos[i]
            &&& forall|i: int|
                index <= i < todos.len() - 1 ==> after_delete(todos, id)[i] == todos[i + 1]
        },
{
    lemma_position_of_is_first(todos, id);
}

/// An update touches one task and only its status and time of change: the
/// list keeps its length, every task keeps identifier and contents, every
/// task but the first that carries the identifier stays as it was, that one
/// has the new status and the moment that the update records, a search for
/// any identifier ends where it ended before, and identifiers are distinct
/// after the update exactly if they were before.
pub proof fn lemma_update_keeps_ids(
    todos: Seq<TodoItem>,
    id: TodoId,
    status: TodoStatus,
    now: Timestamp,
    other: TodoId,
)
    ensures
        ({
            let after = after_update(todos, id, status, now);
            &&& after.len() == todos.len()
            &&& forall|i: int|
                0 <= i < todos.len() ==> #[trigger] after[i].id == todos[i].id && after[i].contents
                    == todos[i].contents
            &&& forall|i: int|
                0 <= i < todos.len() && position_of(todos, id) != Some(i) ==> after[i] == todos[i]
            &&& position_of(after, other) == position_of(todos, other)
            &&& distinct_ids(after) == distinct_ids(todos)
            &&& position_of(todos, id) matches Some(index) ==> {
                &&& is_first_with_id(todos, id, index)
                &&& after[index].status == status
                &&& after[index].modified == Some(update_time(status, now))
            }
        }),
{
    let after = after_update(todos, id, status, now);
    lemma_position_of_is_first(todos, id);
    lemma_position_of_is_first(todos, other);
    lemma_position_of_is_first(after, other);
    if let Some(first) = position_of(todos, other) {
        lemma_first_with_id_is_unique(after, other, first);
    }
    if distinct_ids(after) {
        assert forall|i: int, j: int| 0 <= i < j < todos.len() implies todos[i].id
            != todos[j].id by {
            assert(after[i].id == todos[i].id && after[j].id == todos[j].id);
        }
    }
}

/// The moment that an update records does not depend on the clock where the
/// new status is `Completed`: it is the moment that the status carries.
pub proof fn lemma_update_to_completed_ignores_clock(
    todos: Seq<TodoItem>,
    id: TodoId,
    at: Timestamp,
    now: Timestamp,
    other_now: Timestamp,
)
    ensures
        after_update(todos, id, TodoStatus::Completed(at), now) == after_update(
            todos,
            id,
            TodoStatus::Completed(at),
            other_now,
        ),
{
}

/// Without a wanted status a listing shows the whole list.
pub proof fn lemma_no_filter_shows_all(todos: Seq<TodoItem>)
    ensures
        listing(TodoFilter { status: None }, todos) == todos,
    decreases todos.len(),
{
    reveal(Seq::filter);
    if todos.len() > 0 {
        lemma_no_filter_shows_all(todos.drop_last());
    }
}

/// A listing shows exactly the tasks that its filter selects, in the order
/// of the list: the places of the tasks shown increase along the listing,
/// and they are the places of the tasks that the filter selects, each of
/// them once.
pub proof fn lemma_listing_keeps_order(filter: TodoFilter, todos: Seq<TodoItem>) -> (places: Seq<
    int,
>)
    ensures
        picks_in_order(places, listing(filter, todos), todos),
        forall|k: int|
            0 <= k < todos.len() ==> (filter.spec_selects(&#[trigger] todos[k])
                <==> places.contains(k)),
    decreases todos.len(),
{
    reveal(Seq::filter);
    if todos.len() == 0 {
        Seq::empty()
    } else {
        let rest = todos.drop_last();
        let last = todos.len() - 1;
        let earlier = lemma_listing_keeps_order(filter, rest);
        let places = if filter.spec_selects(&todos[last]) {
            earlier.push(last)
        } else {
            earlier
        };
        assert forall|i: int| 0 <= i < earlier.len() implies places[i] == earlier[i]
            && todos[earlier[i]] == rest[earlier[i]] by {}
        assert forall|k: int| 0 <= k < todos.len() implies (filter.spec_selects(
            &#[trigger] todos[k],
        ) <==> places.contains(k)) by {
            if k < last && earlier.contains(k) {
                let i = choose|i: int| 0 <= i < earlier.len() && earlier[i] == k;
                assert(places[i] == k);
            } else if filter.spec_selects(&todos[last]) {
                assert(places[earlier.len() as int] == last);
            }
        }
        places
    }
}

/// A listing of a list without repeated identifiers has none either.
pub proof fn lemma_listing_keeps_ids_distinct(filter: TodoFilter, todos: Seq<TodoItem>)
    requires
        distinct_ids(todos),
    ensures
        distinct_ids(listing(filter, todos)),
{
    let shown = listing(filter, todos);
    let places = lemma_listing_keeps_order(filter, todos);
    assert forall|i: int, j: int| 0 <= i < j < shown.len() implies shown[i].id != shown[j].id by {
        assert(shown[i] == todos[places[i]] && shown[j] == todos[places[j]]);
    }
}

} // verus!
