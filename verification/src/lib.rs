//! A single-user task tracker: an ordered list of short text tasks that can be
//! added to, listed, completed and removed.
//!
//! The library holds the rules. It never touches a file or a terminal: a
//! caller reads the stored list, hands it over, and carries out what the
//! outcome of a run says.

pub mod command;
pub mod listing;
pub mod number;
pub mod store;
pub mod task;

pub use crate::command::{execute, Outcome, Request};
pub use crate::listing::{list_tasks, Filter};
pub use crate::number::parse_id;
pub use crate::store::{
    add_task, load_tasks, mark_task_as_completed, remove_task, Report, Stored,
};
pub use crate::task::Task;
