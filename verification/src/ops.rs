//! The resource operations: fetch by id, insert, and list all, each one
//! round trip to the store on one leased connection, together with schema
//! initialization.
//!
//! Every operation acquires a pooled connection, executes one statement
//! through the trusted store boundary, maps the outcome in verified code,
//! and releases the connection when the leased handle goes out of scope.
//! No operation retries: an insert is not idempotent, and a retry decision
//! belongs to the caller.

use vstd::prelude::*;
use crate::db::{
    SqlitePool,
    create_todo_table,
    insert_todo_row,
    now_local,
    pool_get,
    query_all_todo_rows,
    query_todo_row,
};
use crate::error::{MappingError, TodoError};
use crate::mapper::{TodoRow, map_rows, row_maps_ok, row_to_todo, todo_matches_row};
use crate::model::{GetTodoReqPath, GetTodoRes, PostTodoReq, Todo, dec_val, id_text_ok, is_blank,
    parse_id, title_is_blank};
use crate::timestamp::{Timestamp, format_rfc3339};

verus! {

/// Ensures the `todo` table exists: one idempotent conditional
/// create-table statement, safe against an already-initialized store.
///
/// Runs before the service accepts requests; any failure here is fatal to
/// startup, a policy the caller enforces.  Fails only at the pool or at
/// the backend.
pub fn init_db(pool: &SqlitePool) -> (r: Result<(), TodoError>)
    ensures
        r is Err ==> r == Err::<(), TodoError>(TodoError::Pool) || r == Err::<(), TodoError>(
            TodoError::Store,
        ),
{
    let conn = match pool_get(pool) {
        Ok(c) => c,
        Err(_) => {
            return Err(TodoError::Pool);
        },
    };
    match create_todo_table(&conn) {
        Ok(_) => Ok(()),
        Err(_) => Err(TodoError::Store),
    }
}

/// Decides the outcome of a fetch from what the lookup handed back.
///
/// No row is exactly the not-found error — never a crash and never a
/// zero-valued record; a row maps as the record mapper says, and a
/// mapping failure surfaces as a mapping error, distinct from not-found.
pub fn todo_from_lookup(found: Option<TodoRow>) -> (r: Result<Todo, TodoError>)
    ensures
        found is None <==> r == Err::<Todo, TodoError>(TodoError::NotFound),
        found matches Some(row) ==> {
            &&& (r matches Ok(todo) ==> row_maps_ok(row) && todo_matches_row(todo, row))
            &&& (r is Ok <==> row_maps_ok(row))
            &&& (!row_maps_ok(row) ==> r == Err::<Todo, TodoError>(
                TodoError::Mapping(MappingError::TimestampParseFailed),
            ))
        },
{
    match found {
        None => Err(TodoError::NotFound),
        Some(row) => row_to_todo(&row),
    }
}

/// Fetch by id: one parameterized lookup filtering on exact id equality.
///
/// A returned record carries the requested id; a missing row is the
/// not-found error; fetching never reports a validation error.  Safe to
/// retry at the caller's discretion: it writes nothing.
pub fn get_todo(pool: &SqlitePool, id: i64) -> (r: Result<Todo, TodoError>)
    ensures
        r matches Ok(todo) ==> todo.id == id,
        r != Err::<Todo, TodoError>(TodoError::Validation),
{
    let conn = match pool_get(pool) {
        Ok(c) => c,
        Err(_) => {
            return Err(TodoError::Pool);
        },
    };
    let found = match query_todo_row(&conn, id) {
        Ok(f) => f,
        Err(_) => {
            return Err(TodoError::Store);
        },
    };
    todo_from_lookup(found)
}

/// The fetch operation as the boundary sees it: an untyped path id,
/// checked here into the entity's id type rather than passed through.
///
/// A non-numeric or out-of-range id text — a word, a negative number, a
/// value past the id type — is a validation error, rejected before it can
/// reach the store and reported as bad input rather than as not-found; a
/// successful result carries exactly the id the path denotes.
pub fn handle_get_todo(pool: &SqlitePool, path: &GetTodoReqPath) -> (r: Result<
    GetTodoRes,
    TodoError,
>)
    ensures
        !id_text_ok(path.id@) <==> r == Err::<GetTodoRes, TodoError>(TodoError::Validation),
        r matches Ok(res) ==> res.todo.id == dec_val(path.id@),
{
    let id = match parse_id(path.id.as_str()) {
        Ok(v) => v,
        Err(e) => {
            return Err(e);
        },
    };
    match get_todo(pool, id) {
        Ok(todo) => Ok(GetTodoRes { todo }),
        Err(e) => Err(e),
    }
}

/// Insert: validates the title, then one parameterized insert whose
/// store-assigned id is read back on the same leased connection.
///
/// A blank title — empty or whitespace-only — is rejected here, before
/// the store is reached, and is the only validation failure; otherwise
/// the operation fails only at the pool or at the backend.  The caller
/// supplies the `created_at` policy as a value; an absent timestamp
/// stores null.
pub fn post_todo(pool: &SqlitePool, req: &PostTodoReq, created_at: Option<Timestamp>) -> (r: Result<
    i64,
    TodoError,
>)
    requires
        created_at matches Some(t) ==> t.wf(),
    ensures
        is_blank(req.title@) <==> r == Err::<i64, TodoError>(TodoError::Validation),
        r is Err ==> r == Err::<i64, TodoError>(TodoError::Validation) || r == Err::<i64, TodoError>(
            TodoError::Pool,
        ) || r == Err::<i64, TodoError>(TodoError::Store),
{
    if title_is_blank(req.title.as_str()) {
        return Err(TodoError::Validation);
    }
    let conn = match pool_get(pool) {
        Ok(c) => c,
        Err(_) => {
            return Err(TodoError::Pool);
        },
    };
    let created: Option<String> = match created_at {
        None => None,
        Some(t) => Some(format_rfc3339(&t)),
    };
    let created_ref: Option<&str> = match &created {
        None => None,
        Some(s) => Some(s.as_str()),
    };
    let body_ref: Option<&str> = match &req.body {
        None => None,
        Some(s) => Some(s.as_str()),
    };
    match insert_todo_row(&conn, req.title.as_str(), body_ref, created_ref) {
        Ok(id) => Ok(id),
        Err(_) => Err(TodoError::Store),
    }
}

/// Insert under the adopted `created_at` policy: the current local time,
/// captured once at request handling, before the statement is issued.
///
/// A clock reading outside the stored text form's range — a year past
/// four digits — stores a null timestamp rather than a malformed one.
pub fn post_todo_now(pool: &SqlitePool, req: &PostTodoReq) -> (r: Result<i64, TodoError>)
    ensures
        is_blank(req.title@) <==> r == Err::<i64, TodoError>(TodoError::Validation),
        r is Err ==> r == Err::<i64, TodoError>(TodoError::Validation) || r == Err::<i64, TodoError>(
            TodoError::Pool,
        ) || r == Err::<i64, TodoError>(TodoError::Store),
{
    let clock = now_local();
    let created = Timestamp::from_clock(&clock);
    post_todo(pool, req, created)
}

/// List all: every row of the table as one ordered sequence, ids
/// ascending — insertion order under the store's monotone id assignment.
///
/// An unbounded convenience operation for trivial row counts; nothing is
/// paginated and nothing truncated.  Each returned record carries its
/// row's column values; one unmappable row fails the whole listing with a
/// mapping error.
pub fn list_todos(pool: &SqlitePool) -> (r: Result<Vec<Todo>, TodoError>)
    ensures
        r matches Ok(todos) ==> forall|i: int, j: int|
            0 <= i < j < todos@.len() ==> #[trigger] todos@[i].id <= #[trigger] todos@[j].id,
        r != Err::<Vec<Todo>, TodoError>(TodoError::Validation),
        r != Err::<Vec<Todo>, TodoError>(TodoError::NotFound),
{
    let conn = match pool_get(pool) {
        Ok(c) => c,
        Err(_) => {
            return Err(TodoError::Pool);
        },
    };
    let rows = match query_all_todo_rows(&conn) {
        Ok(rs) => rs,
        Err(_) => {
            return Err(TodoError::Store);
        },
    };
    let todos = match map_rows(&rows) {
        Ok(ts) => ts,
        Err(e) => {
            return Err(e);
        },
    };
    proof {
        assert forall|i: int, j: int| 0 <= i < j < todos@.len() implies #[trigger] todos@[i].id
            <= #[trigger] todos@[j].id by {
            assert(todo_matches_row(todos@[i], rows@[i]));
            assert(todo_matches_row(todos@[j], rows@[j]));
        }
    }
    Ok(todos)
}

} // verus!
