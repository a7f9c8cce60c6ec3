//! The storage of tasks: its model, the repository interface and the
//! repository that backs the JSON file.
pub mod json_file;
pub mod model;
pub mod traits;

pub use json_file::JsonFileTaskRepository;
pub use traits::TaskRepository;
