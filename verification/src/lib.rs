//! Lifecycle helper for a desktop application: decides how the application is
//! launched, how its scheduled task is managed and how a self-update replaces
//! the installed files. Every decision is a verified function over plain
//! values; the caller performs the file system and process work.

pub mod error;
pub mod path;
pub mod entry;
pub mod extract;
pub mod install;
pub mod archive;
pub mod command;
pub mod update;
pub mod descriptor;
pub mod task;
pub mod start;
pub mod identity;

pub use start::{handle_start_command, StartMode};
pub use task::{handle_task_command, TaskAction};
pub use update::handle_update_command;
