//! A todo service as plain functions: the records, the four operations on
//! them, and the table that maps a request line to an operation.
//!
//! Nothing here keeps state. Every function is determined by its arguments,
//! and its contract says what it returns for each of them.

pub mod handlers;
pub mod ident;
pub mod model;
pub mod route;
pub mod service;

pub use handlers::{create_todo, delete_todo, todos, update_todo};
pub use ident::{parse_id, PathParseError};
pub use model::{CreateTodo, DecodeError, Payload, Todo, TodoView, UpdateTodo};
pub use route::{match_path, resolve, Endpoint, Method, Pattern, RouteError};
pub use service::{respond, Reply};
