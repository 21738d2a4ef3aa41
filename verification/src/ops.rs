use crate::clock::{utc_now, Timestamp};
use crate::error::RusteriaError;
use crate::id::{is_version7, TodoId};
use crate::laws::{
    lemma_delete_removes_only_match, lemma_listing_keeps_ids_distinct, lemma_update_keeps_ids,
};
use crate::model::{
    after_delete, after_update, distinct_ids, has_id, is_first_with_id,
    lemma_first_with_id_is_unique, lemma_push_fresh_id, listing, position_of, with_status,
};
use crate::todo::{TodoFilter, TodoItem, TodoStatus};
use vstd::prelude::*;

verus! {

/// Looks for the first task that carries the identifier.
pub fn find_todo(id: TodoId, todos: &Vec<TodoItem>) -> (found: Option<usize>)
    ensures
        match found {
            Some(index) => position_of(todos@, id) == Some(index as int) && is_first_with_id(
                todos@,
                id,
                index as int,
            ),
            None => position_of(todos@, id) is None,
        },
{
    let mut index: usize = 0;
    while index < todos.len()
        invariant
            index <= todos.len(),
            forall|j: int| 0 <= j < index ==> todos@[j].id != id,
        decreases todos.len() - index,
    {
        if todos[index].id == id {
            proof {
                lemma_first_with_id_is_unique(todos@, id, index as int);
            }
            return Some(index);
        }
        index += 1;
    }
    None
}

/// Appends a new open task with the given contents and a fresh identifier,
/// and returns it. Where the fresh identifier is not yet in the list, a
/// search for it ends at the new task, and a list without repeated
/// identifiers stays one.
pub fn add_todo<'a>(contents: String, todos: &'a mut Vec<TodoItem>) -> (added: &'a TodoItem)
    ensures
        final(todos)@ == old(todos)@.push(*added),
        final(todos)@.len() == old(todos)@.len() + 1,
        is_version7(added.id.0),
        *added == (TodoItem {
            id: added.id,
            modified: None,
            contents,
            status: TodoStatus::Uncompleted,
        }),
        !has_id(old(todos)@, added.id) ==> {
            &&& position_of(final(todos)@, added.id) == Some(old(todos)@.len() as int)
            &&& distinct_ids(old(todos)@) ==> distinct_ids(final(todos)@)
        },
{
    let item = TodoItem::new(contents);
    proof {
        if !has_id(todos@, item.id) {
            lemma_push_fresh_id(todos@, item);
        }
    }
    todos.push(item);
    let last = todos.len() - 1;
    &todos[last]
}

/// Removes the first task that carries the identifier; the others keep their
/// order. Fails with `NoSuchTodo`, and changes nothing, where no task
/// carries it. A list without repeated identifiers stays one.
pub fn delete_todo(id: TodoId, todos: &mut Vec<TodoItem>) -> (outcome: Result<(), RusteriaError>)
    ensures
        final(todos)@ == after_delete(old(todos)@, id),
        match outcome {
            Ok(_) => position_of(old(todos)@, id) matches Some(index) && is_first_with_id(
                old(todos)@,
                id,
                index,
            ),
            Err(error) => error is NoSuchTodo && position_of(old(todos)@, id) is None,
        },
        distinct_ids(old(todos)@) ==> distinct_ids(final(todos)@),
{
    match find_todo(id, todos) {
        Some(index) => {
            proof {
                if distinct_ids(todos@) {
                    lemma_delete_removes_only_match(todos@, id);
                }
            }
            todos.remove(index);
            Ok(())
        },
        None => Err(RusteriaError::NoSuchTodo),
    }
}

/// Gives the task at `index` the status and the moment of the change.
fn record_update<'a>(
    index: usize,
    status: TodoStatus,
    when: Timestamp,
    todos: &'a mut Vec<TodoItem>,
) -> (item: &'a TodoItem)
    requires
        index < old(todos)@.len(),
    ensures
        final(todos)@ == old(todos)@.update(
            index as int,
            with_status(old(todos)@[index as int], status, when),
        ),
        *item == final(todos)@[index as int],
{
    todos[index].modified = Some(when);
    todos[index].status = status;
    &todos[index]
}

/// [`update_todo`] with the reading of the clock handed in: gives the first
/// task that carries the identifier the new status and records when, at the
/// moment of completion that the status carries, or at `now` for a task that
/// is reopened. Returns the task as it then is; no other task changes.
/// Fails with `NoSuchTodo`, and changes nothing, where no task carries the
/// identifier. A list without repeated identifiers stays one.
pub fn update_todo_at<'a>(
    id: TodoId,
    status: TodoStatus,
    now: Timestamp,
    todos: &'a mut Vec<TodoItem>,
) -> (outcome: Result<&'a TodoItem, RusteriaError>)
    ensures
        final(todos)@ == after_update(old(todos)@, id, status, now),
        match outcome {
            Ok(item) => {
                &&& position_of(old(todos)@, id) matches Some(index)
                &&& is_first_with_id(old(todos)@, id, index)
                &&& *item == final(todos)@[index]
            },
            Err(error) => error is NoSuchTodo && position_of(old(todos)@, id) is None,
        },
        distinct_ids(old(todos)@) ==> distinct_ids(final(todos)@),
{
    match find_todo(id, todos) {
        Some(index) => {
            let when = match status {
                TodoStatus::Uncompleted => now,
                TodoStatus::Completed(at) => at,
            };
            proof {
                lemma_update_keeps_ids(todos@, id, status, now, id);
            }
            Ok(record_update(index, status, when, todos))
        },
        None => Err(RusteriaError::NoSuchTodo),
    }
}

/// Gives the first task that carries the identifier a new status and records
/// when: at the moment of completion that the status carries, or now, by the
/// clock, for a task that is reopened. Returns the task as it then is; no
/// other task changes. Fails with `NoSuchTodo`, and changes nothing, where no
/// task carries the identifier. A list without repeated identifiers stays
/// one.
///
/// The clock is read only for a task that is found and reopened. Whatever it
/// reads, the outcome is that of [`update_todo_at`] with that reading.
pub fn update_todo<'a>(id: TodoId, status: TodoStatus, todos: &'a mut Vec<TodoItem>) -> (outcome:
    Result<&'a TodoItem, RusteriaError>)
    ensures
        exists|now: Timestamp|
            final(todos)@ == #[trigger] after_update(old(todos)@, id, status, now),
        match outcome {
            Ok(item) => {
                &&& position_of(old(todos)@, id) matches Some(index)
                &&& is_first_with_id(old(todos)@, id, index)
                &&& *item == final(todos)@[index]
                &&& item.status == status
                &&& item.modified is Some
                &&& status matches TodoStatus::Completed(at) ==> item.modified == Some(at)
            },
            Err(error) => error is NoSuchTodo && position_of(old(todos)@, id) is None,
        },
        distinct_ids(old(todos)@) ==> distinct_ids(final(todos)@),
{
    match find_todo(id, todos) {
        Some(index) => {
            let when = match status {
                TodoStatus::Uncompleted => utc_now(),
                TodoStatus::Completed(at) => at,
            };
            proof {
                lemma_update_keeps_ids(todos@, id, status, when, id);
            }
            Ok(record_update(index, status, when, todos))
        },
        None => {
            proof {
                // Nothing changes, whatever the clock would have read.
                let any_time: Timestamp = arbitrary();
                assert(todos@ == after_update(todos@, id, status, any_time));
            }
            Err(RusteriaError::NoSuchTodo)
        },
    }
}

/// The tasks that the filter selects, in the order of the list. Of a list
/// without repeated identifiers the listing has none either.
pub fn list_todos(filter: TodoFilter, todos: Vec<TodoItem>) -> (shown: Vec<TodoItem>)
    ensures
        shown@ == listing(filter, todos@),
        distinct_ids(todos@) ==> distinct_ids(shown@),
{
    let ghost pred = |item: TodoItem| filter.selects(&item);
    let ghost all = todos@;
    let mut shown: Vec<TodoItem> = Vec::new();
    for item in it: todos.into_iter()
        invariant
            it.seq() == all,
            forall|other: TodoItem| #[trigger] pred(other) == filter.selects(&other),
            shown@ == all.take(it.index()).filter(pred),
    {
        proof {
            let seen = it.index();
            assert(all.take(seen + 1) =~= all.take(seen).push(item));
            all.take(seen).lemma_filter_push(item, pred);
        }
        if filter.selects(&item) {
            shown.push(item);
        }
    }
    proof {
        assert(all.take(all.len() as int) =~= all);
        if distinct_ids(all) {
            lemma_listing_keeps_ids_distinct(filter, all);
        }
    }
    shown
}

} // verus!
