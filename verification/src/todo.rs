use crate::clock::{utc_now, Timestamp};
use crate::error::RusteriaError;
use crate::id::{is_version7, TodoId};
use vstd::prelude::*;
use vstd::std_specs::cmp::PartialEqSpec;
use vstd::string::StringExecFns;

verus! {

/// Whether a task is still open, or when it was completed.
#[derive(Clone, Copy, Debug)]
pub enum TodoStatus {
    Uncompleted,
    Completed(Timestamp),
}

/// What `==` means between statuses: both open, or both completed.
impl vstd::std_specs::cmp::PartialEqSpecImpl for TodoStatus {
    open spec fn obeys_eq_spec() -> bool {
        true
    }

    open spec fn eq_spec(&self, other: &Self) -> bool {
        (self is Completed) == (other is Completed)
    }
}

/// Two statuses are equal when both are open or both are completed: the
/// moment of completion is not compared.
impl PartialEq for TodoStatus {
    fn eq(&self, other: &Self) -> (same: bool) {
        match (self, other) {
            (TodoStatus::Completed(_), TodoStatus::Completed(_)) => true,
            (TodoStatus::Uncompleted, TodoStatus::Uncompleted) => true,
            _ => false,
        }
    }
}

/// `false` becomes `Uncompleted`; `true` becomes `Completed`, stamped with
/// the time of the conversion.
impl From<bool> for TodoStatus {
    fn from(value: bool) -> (status: TodoStatus)
        ensures
            (status is Completed) == value,
    {
        if value {
            TodoStatus::Completed(utc_now())
        } else {
            TodoStatus::Uncompleted
        }
    }
}

/// The conversion reads the clock, so no spec function gives its result:
/// callers go by the `ensures` of `from`.
impl vstd::std_specs::convert::FromSpecImpl<bool> for TodoStatus {
    open spec fn obeys_from_spec() -> bool {
        false
    }

    open spec fn from_spec(value: bool) -> TodoStatus {
        arbitrary()
    }
}

/// What the conversion to `bool` gives: whether the status is `Completed`.
impl vstd::std_specs::convert::IntoSpecImpl<bool> for TodoStatus {
    open spec fn obeys_into_spec() -> bool {
        true
    }

    open spec fn into_spec(self) -> bool {
        self is Completed
    }
}

/// `Uncompleted` is `false`, `Completed` is `true`, whenever it was.
impl Into<bool> for TodoStatus {
    fn into(self) -> (done: bool) {
        match self {
            TodoStatus::Uncompleted => false,
            TodoStatus::Completed(_) => true,
        }
    }
}

/// The meaning of a status word: `Some(false)` for `open`, `Some(true)` for
/// `closed`, `None` for any other text. The match is exact: case counts, and
/// nothing is trimmed.
pub open spec fn status_word(text: Seq<char>) -> Option<bool> {
    if text == "open"@ {
        Some(false)
    } else if text == "closed"@ {
        Some(true)
    } else {
        None
    }
}

/// Reads a status word; see [`status_word`].
pub fn read_status_word(text: &String) -> (word: Option<bool>)
    ensures
        word == status_word(text@),
{
    if *text == String::from_str("open") {
        Some(false)
    } else if *text == String::from_str("closed") {
        Some(true)
    } else {
        None
    }
}

/// `open` parses to `Uncompleted` and `closed` to `Completed`, stamped with
/// the time of parsing; any other text is refused as `Unknown`.
impl TryFrom<String> for TodoStatus {
    type Error = RusteriaError;

    fn try_from(value: String) -> (outcome: Result<TodoStatus, RusteriaError>)
        ensures
            match status_word(value@) {
                Some(done) => outcome matches Ok(status) && (status is Completed) == done,
                None => outcome matches Err(RusteriaError::Unknown(reason)) && reason@
                    == "Invalid Status"@,
            },
    {
        match read_status_word(&value) {
            Some(done) => Ok(TodoStatus::from(done)),
            None => Err(RusteriaError::Unknown(String::from_str("Invalid Status"))),
        }
    }
}

/// The conversion may read the clock, so no spec function gives its result:
/// callers go by the `ensures` of `try_from`.
impl vstd::std_specs::convert::TryFromSpecImpl<String> for TodoStatus {
    open spec fn obeys_try_from_spec() -> bool {
        false
    }

    open spec fn try_from_spec(value: String) -> Result<TodoStatus, RusteriaError> {
        arbitrary()
    }
}

/// One task of the list.
#[derive(Debug)]
pub struct TodoItem {
    /// Set once, when the task is made.
    pub id: TodoId,
    /// When the status was last set; `None` until the first update.
    pub modified: Option<Timestamp>,
    /// What is to be done.
    pub contents: String,
    pub status: TodoStatus,
}

impl TodoItem {
    /// How the item is shown: a box, ticked once the item is completed, and
    /// the contents.
    pub open spec fn rendered(&self) -> Seq<char> {
        if self.status is Completed {
            "[x] "@ + self.contents@
        } else {
            "[ ] "@ + self.contents@
        }
    }

    /// An open task with the given identifier, never modified.
    pub fn with_id(id: TodoId, contents: String) -> (item: TodoItem)
        ensures
            item == (TodoItem { id, modified: None, contents, status: TodoStatus::Uncompleted }),
    {
        TodoItem { id, modified: None, contents, status: TodoStatus::Uncompleted }
    }

    /// An open task with a fresh identifier, never modified.
    pub fn new(contents: String) -> (item: TodoItem)
        ensures
            is_version7(item.id.0),
            item == (TodoItem {
                id: item.id,
                modified: None,
                contents,
                status: TodoStatus::Uncompleted,
            }),
    {
        TodoItem::with_id(TodoId::generate(), contents)
    }

    /// Shows the task as `[ ] contents` while open and `[x] contents` once
    /// completed.
    pub fn render(&self) -> (text: String)
        ensures
            text@ == self.rendered(),
    {
        let mut text = match self.status {
            TodoStatus::Uncompleted => String::from_str("[ ] "),
            TodoStatus::Completed(_) => String::from_str("[x] "),
        };
        text.append(self.contents.as_str());
        text
    }
}

/// Which tasks a listing shows: those of one status, or all of them.
#[derive(Clone, Copy, Debug)]
pub struct TodoFilter {
    pub status: Option<TodoStatus>,
}

impl TodoFilter {
    /// Whether a listing under this filter shows the task. The status is
    /// compared as `==` compares it, so `Completed` asks for every completed
    /// task, whenever it was completed.
    pub open spec fn spec_selects(&self, item: &TodoItem) -> bool {
        match self.status {
            Some(wanted) => item.status.eq_spec(&wanted),
            None => true,
        }
    }

    /// The filter that a yes-or-no choice asks for: every task where no
    /// choice is made, the open tasks for `false`, the completed ones for
    /// `true`.
    pub fn from_flag(completed: Option<bool>) -> (filter: TodoFilter)
        ensures
            match completed {
                Some(wanted) => filter.status matches Some(status) && (status is Completed)
                    == wanted,
                None => filter.status is None,
            },
    {
        match completed {
            Some(wanted) => TodoFilter { status: Some(TodoStatus::from(wanted)) },
            None => TodoFilter { status: None },
        }
    }

    /// Whether a listing under this filter shows the task.
    #[verifier::when_used_as_spec(spec_selects)]
    pub fn selects(&self, item: &TodoItem) -> (shown: bool)
        ensures
            shown == self.spec_selects(item),
    {
        match &self.status {
            Some(wanted) => item.status == *wanted,
            None => true,
        }
    }
}

} // verus!
