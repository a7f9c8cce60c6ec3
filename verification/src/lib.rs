//! A task tracker: tasks with a lifecycle status, a store of tasks keyed by
//! id, the service that runs the use cases, and the command-line and HTTP
//! front ends' decisions.
pub mod text;
pub mod error;
pub mod domain;
pub mod repository;
pub mod service;
pub mod cli;
pub mod api;

pub use domain::{Task, TaskStatus};
pub use error::TaskError;
pub use repository::{JsonFileTaskRepository, TaskRepository};
pub use service::TaskManager;
