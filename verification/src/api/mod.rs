//! The HTTP API's request payloads and the decisions its handlers make.
pub mod dto;

pub use dto::{CreateTaskRequest, TaskFilterQuery, UpdateTaskRequest};
