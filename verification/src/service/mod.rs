//! The application service.
pub mod task_manager;

pub use task_manager::TaskManager;
