//! A personal task list: tasks with a text, a status and an identifier, and
//! the four operations on a list of them: add, delete, update and list.
//!
//! The list is a plain `Vec<TodoItem>` that the caller owns; every operation
//! takes it as an argument and keeps no state of its own. Each operation's
//! contract says what the list holds afterwards; [`model`] has the notions
//! that the contracts are written in, and [`laws`] what follows from them.

pub mod clock;
pub mod error;
pub mod id;
pub mod laws;
pub mod model;
pub mod ops;
pub mod todo;

pub use clock::Timestamp;
pub use error::RusteriaError;
pub use id::TodoId;
pub use ops::{add_todo, delete_todo, find_todo, list_todos, update_todo, update_todo_at};
pub use todo::{TodoFilter, TodoItem, TodoStatus};
