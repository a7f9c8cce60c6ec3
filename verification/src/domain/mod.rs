//! Task entities and their lifecycle status.
pub mod status;
pub mod task;

pub use status::TaskStatus;
pub use task::{Task, TaskView};
