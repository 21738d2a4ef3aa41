use crate::clock::Timestamp;
use crate::id::TodoId;
use crate::todo::{TodoFilter, TodoItem, TodoStatus};
use vstd::prelude::*;

verus! {

/// Whether some task of the list carries the identifier.
pub open spec fn has_id(todos: Seq<TodoItem>, id: TodoId) -> bool {
    exists|i: int| 0 <= i < todos.len() && todos[i].id == id
}

/// Whether `index` is the place of the first task that carries the
/// identifier.
pub open spec fn is_first_with_id(todos: Seq<TodoItem>, id: TodoId, index: int) -> bool {
    &&& 0 <= index < todos.len()
    &&& todos[index].id == id
    &&& forall|j: int| 0 <= j < index ==> todos[j].id != id
}

/// The place of the first task that carries the identifier, where there is
/// one.
pub open spec fn first_with_id(todos: Seq<TodoItem>, id: TodoId) -> int {
    choose|index: int| is_first_with_id(todos, id, index)
}

/// Where a search for the identifier ends: at the first task that carries
/// it, or nowhere.
pub open spec fn position_of(todos: Seq<TodoItem>, id: TodoId) -> Option<int> {
    if has_id(todos, id) {
        Some(first_with_id(todos, id))
    } else {
        None
    }
}

/// Whether no two tasks of the list share an identifier.
pub open spec fn distinct_ids(todos: Seq<TodoItem>) -> bool {
    forall|i: int, j: int| 0 <= i < j < todos.len() ==> todos[i].id != todos[j].id
}

/// The moment that an update to `status` records: the moment of completion
/// that the status carries, or the reading of the clock for a reopened task.
pub open spec fn update_time(status: TodoStatus, now: Timestamp) -> Timestamp {
    match status {
        TodoStatus::Uncompleted => now,
        TodoStatus::Completed(at) => at,
    }
}

/// What a listing under the filter shows of a list: the tasks that the
/// filter selects, in the order of the list.
pub open spec fn listing(filter: TodoFilter, todos: Seq<TodoItem>) -> Seq<TodoItem> {
    todos.filter(|item: TodoItem| filter.spec_selects(&item))
}

/// Whether `places` picks `shown` out of `todos` in order: one place in
/// `todos` for each task of `shown`, holding that task, the places strictly
/// increasing.
pub open spec fn picks_in_order(places: Seq<int>, shown: Seq<TodoItem>, todos: Seq<TodoItem>) -> bool {
    &&& places.len() == shown.len()
    &&& forall|i: int|
        0 <= i < places.len() ==> 0 <= #[trigger] places[i] < todos.len() && todos[places[i]]
            == shown[i]
    &&& forall|i: int, j: int| 0 <= i < j < places.len() ==> places[i] < places[j]
}

/// The task after an update: the new status, and the moment it took effect.
/// Identifier and contents stay.
pub open spec fn with_status(item: TodoItem, status: TodoStatus, when: Timestamp) -> TodoItem {
    TodoItem { id: item.id, modified: Some(when), contents: item.contents, status }
}

/// The list after the deletion of an identifier: without the first task that
/// carries it, or unchanged where no task carries it.
pub open spec fn after_delete(todos: Seq<TodoItem>, id: TodoId) -> Seq<TodoItem> {
    match position_of(todos, id) {
        Some(index) => todos.remove(index),
        None => todos,
    }
}

/// The list after an update of an identifier to `status`, with the clock at
/// `now`: the first task that carries the identifier has the new status and
/// the moment that the update records, or the list is unchanged where no
/// task carries the identifier.
pub open spec fn after_update(
    todos: Seq<TodoItem>,
    id: TodoId,
    status: TodoStatus,
    now: Timestamp,
) -> Seq<TodoItem> {
    match position_of(todos, id) {
        Some(index) => todos.update(
            index,
            with_status(todos[index], status, update_time(status, now)),
        ),
        None => todos,
    }
}

/// The first place of an identifier is the only index that
/// [`is_first_with_id`] accepts.
pub proof fn lemma_first_with_id_is_unique(todos: Seq<TodoItem>, id: TodoId, index: int)
    requires
        is_first_with_id(todos, id, index),
    ensures
        position_of(todos, id) == Some(index),
{
}

/// Below any task that carries the identifier there is a first one.
proof fn lemma_first_at_or_before(todos: Seq<TodoItem>, id: TodoId, index: int) -> (first: int)
    requires
        0 <= index < todos.len(),
        todos[index].id == id,
    ensures
        is_first_with_id(todos, id, first),
    decreases index,
{
    if exists|j: int| 0 <= j < index && todos[j].id == id {
        let earlier = choose|j: int| 0 <= j < index && todos[j].id == id;
        lemma_first_at_or_before(todos, id, earlier)
    } else {
        index
    }
}

/// A search that ends somewhere ends at the first task that carries the
/// identifier; one that ends nowhere means that no task carries it.
pub proof fn lemma_position_of_is_first(todos: Seq<TodoItem>, id: TodoId)
    ensures
        match position_of(todos, id) {
            Some(index) => is_first_with_id(todos, id, index),
            None => forall|i: int| 0 <= i < todos.len() ==> todos[i].id != id,
        },
{
    if has_id(todos, id) {
        let witness = choose|i: int| 0 <= i < todos.len() && todos[i].id == id;
        lemma_first_at_or_before(todos, id, witness);
    }
}

/// Appending a task whose identifier is new to the list puts it where a
/// search for that identifier ends, and keeps identifiers distinct.
pub proof fn lemma_push_fresh_id(todos: Seq<TodoItem>, item: TodoItem)
    requires
        !has_id(todos, item.id),
    ensures
        position_of(todos.push(item), item.id) == Some(todos.len() as int),
        distinct_ids(todos) ==> distinct_ids(todos.push(item)),
{
    lemma_first_with_id_is_unique(todos.push(item), item.id, todos.len() as int);
}

} // verus!
