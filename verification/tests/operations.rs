use chrono::{NaiveDate, Utc};
use rusteria::{
    add_todo, delete_todo, find_todo, list_todos, update_todo, update_todo_at, RusteriaError,
    Timestamp, TodoFilter, TodoId, TodoItem, TodoStatus,
};

fn moment(day: u32, hour: u32) -> Timestamp {
    NaiveDate::from_ymd_opt(2024, 3, day).unwrap().and_hms_opt(hour, 30, 15).unwrap()
}

fn item(id: u128, contents: &str, status: TodoStatus) -> TodoItem {
    TodoItem { id: TodoId(id), modified: None, contents: contents.to_owned(), status }
}

fn ids(todos: &Vec<TodoItem>) -> Vec<u128> {
    todos.iter().map(|todo| todo.id.0).collect()
}

#[test]
fn t() {
    println!("do it");
}

#[test]
fn add_appends_an_open_item() {
    let mut v: Vec<TodoItem> = Vec::new();
    let new_item = add_todo("Buy Groceries".to_owned(), &mut v);
    assert_eq!(&new_item.contents, "Buy Groceries");
    assert_eq!(new_item.status, TodoStatus::Uncompleted);
    assert_eq!(new_item.modified, None);
    assert_eq!(v.len(), 1);
}

#[test]
fn add_keeps_earlier_items_and_order() {
    let mut v = vec![item(1, "first", TodoStatus::Uncompleted)];
    let second = add_todo("second".to_owned(), &mut v).id;
    let third = add_todo("third".to_owned(), &mut v).id;
    assert_eq!(ids(&v), vec![1, second.0, third.0]);
    assert_eq!(v[1].contents, "second");
    assert_eq!(v[2].contents, "third");
}

#[test]
fn added_item_is_found_by_its_id() {
    let mut v: Vec<TodoItem> = Vec::new();
    add_todo("one".to_owned(), &mut v);
    let id = add_todo("two".to_owned(), &mut v).id;
    add_todo("three".to_owned(), &mut v);
    assert_eq!(v.len(), 3);
    assert_eq!(find_todo(id, &v), Some(1));
    assert_eq!(v[1].contents, "two");
    assert_eq!(v[1].status, TodoStatus::Uncompleted);
}

#[test]
fn added_items_have_distinct_ids() {
    let mut v: Vec<TodoItem> = Vec::new();
    for n in 0..200 {
        add_todo(format!("item {}", n), &mut v);
    }
    let mut seen = ids(&v);
    seen.sort();
    seen.dedup();
    assert_eq!(seen.len(), 200);
}

#[test]
fn added_ids_sort_by_creation() {
    let mut v: Vec<TodoItem> = Vec::new();
    for n in 0..50 {
        add_todo(format!("item {}", n), &mut v);
    }
    for pair in v.windows(2) {
        assert!(pair[0].id < pair[1].id);
    }
}

#[test]
fn delete_existing_item() {
    let mut v: Vec<TodoItem> = vec![TodoItem::new("Buy Groceries".to_owned())];
    let id = v.first().unwrap().id;
    let res = delete_todo(id, &mut v);
    assert!(res.is_ok());
    assert_eq!(v.len(), 0);
}

#[test]
fn add_then_delete_leaves_the_list_empty() {
    let mut v: Vec<TodoItem> = Vec::new();
    let id = add_todo("Buy Groceries".to_owned(), &mut v).id;
    assert_eq!(v.len(), 1);
    assert!(delete_todo(id, &mut v).is_ok());
    assert_eq!(v.len(), 0);
}

#[test]
fn delete_missing_item_from_empty_list() {
    let mut v: Vec<TodoItem> = Vec::new();
    let id = TodoId::generate();
    let res = delete_todo(id, &mut v);
    assert!(res.is_err());
    assert!(matches!(res, Err(RusteriaError::NoSuchTodo)));
    assert_eq!(v.len(), 0);
}

#[test]
fn delete_missing_item_changes_nothing() {
    let mut v = vec![
        item(1, "a", TodoStatus::Uncompleted),
        item(2, "b", TodoStatus::Completed(moment(1, 8))),
    ];
    let res = delete_todo(TodoId(3), &mut v);
    assert!(matches!(res, Err(RusteriaError::NoSuchTodo)));
    assert_eq!(ids(&v), vec![1, 2]);
    assert_eq!(v[0].contents, "a");
    assert_eq!(v[1].contents, "b");
}

#[test]
fn delete_closes_the_gap_in_order() {
    let mut v = vec![
        item(10, "a", TodoStatus::Uncompleted),
        item(20, "b", TodoStatus::Uncompleted),
        item(30, "c", TodoStatus::Uncompleted),
        item(40, "d", TodoStatus::Uncompleted),
    ];
    assert!(delete_todo(TodoId(20), &mut v).is_ok());
    assert_eq!(ids(&v), vec![10, 30, 40]);
    assert!(delete_todo(TodoId(40), &mut v).is_ok());
    assert_eq!(ids(&v), vec![10, 30]);
    assert!(delete_todo(TodoId(10), &mut v).is_ok());
    assert_eq!(ids(&v), vec![30]);
    assert_eq!(v[0].contents, "c");
}

#[test]
fn delete_takes_the_first_of_equal_ids() {
    let mut v = vec![
        item(7, "first", TodoStatus::Uncompleted),
        item(8, "other", TodoStatus::Uncompleted),
        item(7, "second", TodoStatus::Uncompleted),
    ];
    assert!(delete_todo(TodoId(7), &mut v).is_ok());
    assert_eq!(ids(&v), vec![8, 7]);
    assert_eq!(v[1].contents, "second");
}

#[test]
fn update_missing_item_fails() {
    let mut v: Vec<TodoItem> = Vec::new();
    let res = update_todo(TodoId::generate(), TodoStatus::Uncompleted, &mut v);
    assert!(matches!(res, Err(RusteriaError::NoSuchTodo)));
    let res = update_todo(TodoId(1), TodoStatus::Completed(moment(2, 9)), &mut v);
    assert!(matches!(res, Err(RusteriaError::NoSuchTodo)));
    assert_eq!(v.len(), 0);
}

#[test]
fn update_missing_item_changes_nothing() {
    let mut v = vec![item(1, "a", TodoStatus::Uncompleted)];
    let res = update_todo(TodoId(2), TodoStatus::Completed(moment(2, 9)), &mut v);
    assert!(matches!(res, Err(RusteriaError::NoSuchTodo)));
    assert_eq!(v.len(), 1);
    assert_eq!(v[0].status, TodoStatus::Uncompleted);
    assert_eq!(v[0].modified, None);
}

#[test]
fn update_to_completed_records_the_completion_time() {
    let mut v: Vec<TodoItem> = Vec::new();
    let id = add_todo("Buy Groceries".to_owned(), &mut v).id;
    let at = moment(5, 17);
    let updated = update_todo(id, TodoStatus::Completed(at), &mut v).unwrap();
    assert_eq!(updated.id, id);
    assert_eq!(updated.contents, "Buy Groceries");
    assert_eq!(updated.status, TodoStatus::Completed(at));
    assert_eq!(updated.status, TodoStatus::Completed(moment(6, 1)));
    assert!(matches!(updated.status, TodoStatus::Completed(when) if when == at));
    assert_eq!(updated.modified, Some(at));
    assert_eq!(v.len(), 1);
    assert_eq!(v[0].modified, Some(at));
}

#[test]
fn update_to_completed_may_backdate() {
    let mut v = vec![item(1, "a", TodoStatus::Uncompleted)];
    let long_ago = NaiveDate::from_ymd_opt(1999, 12, 31).unwrap().and_hms_opt(23, 59, 59).unwrap();
    let updated = update_todo(TodoId(1), TodoStatus::Completed(long_ago), &mut v).unwrap();
    assert_eq!(updated.modified, Some(long_ago));
}

#[test]
fn update_to_uncompleted_records_the_present() {
    let mut v = vec![item(1, "a", TodoStatus::Completed(moment(1, 1)))];
    let before = Utc::now().naive_utc();
    let updated = update_todo(TodoId(1), TodoStatus::Uncompleted, &mut v).unwrap();
    let after = Utc::now().naive_utc();
    assert!(matches!(updated.status, TodoStatus::Uncompleted));
    let modified = updated.modified.unwrap();
    assert!(before <= modified && modified <= after);
}

#[test]
fn update_at_a_given_time() {
    let mut v = vec![
        item(1, "a", TodoStatus::Uncompleted),
        item(2, "b", TodoStatus::Completed(moment(1, 1))),
    ];
    let now = moment(15, 12);
    let reopened = update_todo_at(TodoId(2), TodoStatus::Uncompleted, now, &mut v).unwrap();
    assert!(matches!(reopened.status, TodoStatus::Uncompleted));
    assert_eq!(reopened.modified, Some(now));
    assert_eq!(reopened.contents, "b");
    let at = moment(2, 2);
    let completed = update_todo_at(TodoId(1), TodoStatus::Completed(at), now, &mut v).unwrap();
    assert!(matches!(completed.status, TodoStatus::Completed(when) if when == at));
    assert_eq!(completed.modified, Some(at));
    assert_eq!(ids(&v), vec![1, 2]);
    assert_eq!(v[1].modified, Some(now));
    let missing = update_todo_at(TodoId(3), TodoStatus::Uncompleted, now, &mut v);
    assert!(matches!(missing, Err(RusteriaError::NoSuchTodo)));
    assert_eq!(ids(&v), vec![1, 2]);
    assert_eq!(v[0].modified, Some(at));
    assert_eq!(v[1].modified, Some(now));
}

#[test]
fn update_goes_both_ways_repeatedly() {
    let mut v = vec![item(1, "a", TodoStatus::Uncompleted)];
    let at = moment(9, 9);
    assert!(update_todo(TodoId(1), TodoStatus::Completed(at), &mut v).is_ok());
    assert_eq!(v[0].status, TodoStatus::Completed(at));
    assert!(update_todo(TodoId(1), TodoStatus::Uncompleted, &mut v).is_ok());
    assert_eq!(v[0].status, TodoStatus::Uncompleted);
    assert_ne!(v[0].modified, None);
    let later = moment(10, 10);
    assert!(update_todo(TodoId(1), TodoStatus::Completed(later), &mut v).is_ok());
    assert!(update_todo(TodoId(1), TodoStatus::Completed(at), &mut v).is_ok());
    assert_eq!(v[0].modified, Some(at));
}

#[test]
fn update_touches_one_item_only() {
    let mut v = vec![
        item(1, "a", TodoStatus::Uncompleted),
        item(2, "b", TodoStatus::Uncompleted),
        item(3, "c", TodoStatus::Uncompleted),
    ];
    let at = moment(12, 12);
    let updated = update_todo(TodoId(2), TodoStatus::Completed(at), &mut v).unwrap();
    assert_eq!(updated.contents, "b");
    assert_eq!(ids(&v), vec![1, 2, 3]);
    assert_eq!(v[0].modified, None);
    assert_eq!(v[0].status, TodoStatus::Uncompleted);
    assert_eq!(v[1].modified, Some(at));
    assert_eq!(v[2].modified, None);
    assert_eq!(v[2].status, TodoStatus::Uncompleted);
}

#[test]
fn update_takes_the_first_of_equal_ids() {
    let mut v = vec![
        item(7, "first", TodoStatus::Uncompleted),
        item(7, "second", TodoStatus::Uncompleted),
    ];
    let at = moment(3, 3);
    let updated = update_todo(TodoId(7), TodoStatus::Completed(at), &mut v).unwrap();
    assert_eq!(updated.contents, "first");
    assert_eq!(v[1].status, TodoStatus::Uncompleted);
    assert_eq!(v[1].modified, None);
}

#[test]
fn find_gives_the_first_place_or_none() {
    let v = vec![
        item(5, "a", TodoStatus::Uncompleted),
        item(6, "b", TodoStatus::Uncompleted),
        item(5, "c", TodoStatus::Uncompleted),
    ];
    assert_eq!(find_todo(TodoId(5), &v), Some(0));
    assert_eq!(find_todo(TodoId(6), &v), Some(1));
    assert_eq!(find_todo(TodoId(4), &v), None);
    assert_eq!(find_todo(TodoId(5), &Vec::new()), None);
}

#[test]
fn list_filters_by_status_ignoring_time() {
    let make = || {
        vec![
            item(1, "open", TodoStatus::Uncompleted),
            item(2, "done early", TodoStatus::Completed(moment(1, 1))),
            item(3, "done late", TodoStatus::Completed(moment(20, 20))),
        ]
    };
    let completed = TodoFilter { status: Some(TodoStatus::Completed(moment(7, 7))) };
    assert_eq!(ids(&list_todos(completed, make())), vec![2, 3]);
    let open = TodoFilter { status: Some(TodoStatus::Uncompleted) };
    assert_eq!(ids(&list_todos(open, make())), vec![1]);
    let all = TodoFilter { status: None };
    assert_eq!(ids(&list_todos(all, make())), vec![1, 2, 3]);
}

#[test]
fn list_keeps_items_whole_and_in_order() {
    let at = moment(4, 4);
    let mut second = item(9, "b", TodoStatus::Completed(at));
    second.modified = Some(at);
    let todos = vec![
        item(8, "a", TodoStatus::Completed(moment(1, 1))),
        item(3, "x", TodoStatus::Uncompleted),
        second,
        item(1, "c", TodoStatus::Completed(moment(2, 2))),
    ];
    let shown = list_todos(TodoFilter { status: Some(TodoStatus::from(true)) }, todos);
    assert_eq!(ids(&shown), vec![8, 9, 1]);
    assert_eq!(shown[1].contents, "b");
    assert_eq!(shown[1].modified, Some(at));
    assert!(matches!(shown[1].status, TodoStatus::Completed(when) if when == at));
}

#[test]
fn list_of_nothing_is_empty() {
    assert!(list_todos(TodoFilter { status: None }, Vec::new()).is_empty());
    let open_only = vec![item(1, "a", TodoStatus::Uncompleted)];
    let wanted = TodoFilter { status: Some(TodoStatus::Completed(moment(1, 1))) };
    assert!(list_todos(wanted, open_only).is_empty());
}

#[test]
fn filter_selects_by_status() {
    let open = item(1, "a", TodoStatus::Uncompleted);
    let done = item(2, "b", TodoStatus::Completed(moment(1, 1)));
    let any = TodoFilter { status: None };
    assert!(any.selects(&open) && any.selects(&done));
    let only_open = TodoFilter { status: Some(TodoStatus::Uncompleted) };
    assert!(only_open.selects(&open) && !only_open.selects(&done));
    let only_done = TodoFilter { status: Some(TodoStatus::Completed(moment(2, 2))) };
    assert!(!only_done.selects(&open) && only_done.selects(&done));
}
