//! A small todo store: a SQLite-backed resource layer behind a pooled
//! connection handle.
//!
//! The crate covers the persistence core of a single-resource service:
//! pool lifecycle, idempotent schema initialization, the record mapper
//! between stored rows and the in-memory `Todo`, and the three resource
//! operations — fetch by id, insert, list all — with their error
//! semantics.  The transport boundary around it decodes requests into the
//! typed values these operations take and encodes their typed results
//! back; it lives outside this crate.
//!
//! All logic here is verified; the store itself and the system clock are
//! reached only through the narrow trusted boundary in `db`.

pub mod db;
pub mod error;
pub mod mapper;
pub mod model;
pub mod ops;
pub mod timestamp;

pub use db::{SqlitePool, SqliteConn, manager_file, manager_in_memory, pool_new};
pub use error::{MappingError, TodoError};
pub use model::{GetTodoReqPath, GetTodoRes, PostTodoReq, Todo};
pub use ops::{get_todo, handle_get_todo, init_db, list_todos, post_todo, post_todo_now};
pub use timestamp::Timestamp;
