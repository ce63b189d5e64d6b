//! The trusted boundary to the backing store and to the system clock.
//!
//! Everything here either declares an outside type or wraps exactly one
//! conceptual outside call behind a contract.  The rest of the crate is
//! verified against these contracts; nothing else touches the outside
//! crates.

use vstd::prelude::*;
use crate::mapper::TodoRow;
use crate::timestamp::ClockFields;
use chrono::{Datelike, Timelike};
use rusqlite::OptionalExtension;

verus! {

/// The pool of reusable connections to the embedded store, the sole owner
/// of connection lifetime.  `r2d2::Pool` is generic over a trait the
/// verifier cannot take as a bound, so the pool lives in a private field
/// of this opaque struct and is reached only through the wrappers below.
#[verifier::external_body]
pub struct SqlitePool {
    pool: r2d2::Pool<r2d2_sqlite::SqliteConnectionManager>,
}

/// A connection leased from the pool for the duration of one operation;
/// dropping it returns the connection to the pool on every exit path.
#[verifier::external_body]
pub struct SqliteConn {
    conn: r2d2::PooledConnection<r2d2_sqlite::SqliteConnectionManager>,
}

/// Declares `r2d2_sqlite::SqliteConnectionManager`; opaque to the verifier.
#[verifier::external_type_specification]
#[verifier::external_body]
pub struct ExSqliteConnectionManager(r2d2_sqlite::SqliteConnectionManager);

/// Declares `r2d2::Error`, the pool's error type; opaque to the verifier.
#[verifier::external_type_specification]
#[verifier::external_body]
pub struct ExR2d2Error(r2d2::Error);

/// Declares `rusqlite::Error`, the statement-level error type; opaque to
/// the verifier.
#[verifier::external_type_specification]
#[verifier::external_body]
pub struct ExRusqliteError(rusqlite::Error);

/// Relies on `SqliteConnectionManager::memory`: a manager whose
/// connections all open one named shared-cache in-memory database, kept
/// alive by a connection the manager holds, so every lease from a pool
/// over it sees the same contents.
#[verifier::external_body]
pub fn manager_in_memory() -> r2d2_sqlite::SqliteConnectionManager {
    r2d2_sqlite::SqliteConnectionManager::memory()
}

/// Relies on `SqliteConnectionManager::file`: a manager whose connections
/// open the database file at `path`.
#[verifier::external_body]
pub fn manager_file(path: &str) -> r2d2_sqlite::SqliteConnectionManager {
    r2d2_sqlite::SqliteConnectionManager::file(path)
}

/// Relies on `r2d2::Builder::max_size` and `Builder::build`: a pool of at
/// most `max_size` connections from `manager`, or the pool's error when no
/// connection can be established.  `max_size` must be positive: the
/// builder panics on zero.
#[verifier::external_body]
pub fn pool_new(manager: r2d2_sqlite::SqliteConnectionManager, max_size: u32) -> Result<
    SqlitePool,
    r2d2::Error,
>
    requires
        max_size >= 1,
{
    match r2d2::Pool::builder().max_size(max_size).build(manager) {
        Ok(pool) => Ok(SqlitePool { pool }),
        Err(e) => Err(e),
    }
}

/// Relies on `r2d2::Pool::get`: a connection leased from the pool, or the
/// pool's error when the pool is exhausted or the backend unavailable.
/// The lease ends when the returned handle is dropped, on every exit path.
#[verifier::external_body]
pub fn pool_get(pool: &SqlitePool) -> Result<SqliteConn, r2d2::Error> {
    match pool.pool.get() {
        Ok(conn) => Ok(SqliteConn { conn }),
        Err(e) => Err(e),
    }
}

/// Relies on `rusqlite::Connection::execute` running a conditional
/// create-table statement: idempotent, so it succeeds against an
/// already-initialized store.
#[verifier::external_body]
pub fn create_todo_table(conn: &SqliteConn) -> Result<(), rusqlite::Error> {
    let r = conn.conn.execute(
        "CREATE TABLE IF NOT EXISTS todo (id INTEGER PRIMARY KEY AUTOINCREMENT, title TEXT, body TEXT, created_at TEXT)",
        (),
    );
    match r {
        Ok(_) => Ok(()),
        Err(e) => Err(e),
    }
}

/// Relies on `rusqlite::Connection::execute` and
/// `Connection::last_insert_rowid`: inserts one row and reports the rowid
/// that this same connection assigned to it.  Holding both calls on one
/// leased connection is load-bearing: the last-inserted id is scoped to
/// the connection, not to the table, so concurrent inserts on other
/// connections cannot race with it.
#[verifier::external_body]
pub fn insert_todo_row(
    conn: &SqliteConn,
    title: &str,
    body: Option<&str>,
    created_at: Option<&str>,
) -> Result<i64, rusqlite::Error> {
    let r = conn.conn.execute(
        "INSERT INTO todo (title, body, created_at) VALUES (?1, ?2, ?3)",
        (title, body, created_at),
    );
    match r {
        Ok(_) => Ok(conn.conn.last_insert_rowid()),
        Err(e) => Err(e),
    }
}

/// Relies on `rusqlite::Connection::query_row` with a lookup filtering on
/// exact id equality, and on `OptionalExtension::optional` turning the
/// no-rows case into an absent result: any row handed back matches the
/// requested id.  The id column is the primary key, so at most one row
/// matches.  Columns are read typed: a `created_at` value that is neither
/// null nor text is a statement error, never coerced to null.
#[verifier::external_body]
pub fn query_todo_row(conn: &SqliteConn, id: i64) -> (r: Result<Option<TodoRow>, rusqlite::Error>)
    ensures
        r matches Ok(Some(row)) ==> row.id == id,
{
    conn.conn.query_row(
        "SELECT id, title, body, created_at FROM todo WHERE id = ?1",
        (id,),
        |row| Ok(TodoRow::new(row.get(0)?, row.get(1)?, row.get(2)?, row.get(3)?)),
    ).optional()
}

/// Relies on `rusqlite::Statement::query_map` over a select of every row
/// ordered by id: the rows come back with ids in ascending order.
/// Columns are read typed: a `created_at` value that is neither null nor
/// text is a statement error, never coerced to null.
#[verifier::external_body]
pub fn query_all_todo_rows(conn: &SqliteConn) -> (r: Result<Vec<TodoRow>, rusqlite::Error>)
    ensures
        r matches Ok(rows) ==> forall|i: int, j: int|
            0 <= i < j < rows@.len() ==> rows@[i].id <= rows@[j].id,
{
    let mut stmt = conn.conn.prepare("SELECT id, title, body, created_at FROM todo ORDER BY id")?;
    let rows = stmt.query_map(
        (),
        |row| Ok(TodoRow::new(row.get(0)?, row.get(1)?, row.get(2)?, row.get(3)?)),
    )?;
    rows.collect()
}

/// Relies on `chrono::Local::now` and the `Datelike` / `Timelike`
/// accessors: month is 1..=12, day 1..=31, hour 0..=23, minute and second
/// 0..=59, and the fixed local offset is strictly within one day of
/// seconds.  The year is whatever the platform clock reports.
#[verifier::external_body]
pub fn now_local() -> (r: ClockFields)
    ensures
        1 <= r.month <= 12,
        1 <= r.day <= 31,
        r.hour <= 23,
        r.minute <= 59,
        r.second <= 59,
        -86400 < r.offset_seconds < 86400,
{
    let now = chrono::Local::now();
    ClockFields {
        year: now.year() as i64,
        month: now.month(),
        day: now.day(),
        hour: now.hour(),
        minute: now.minute(),
        second: now.second(),
        offset_seconds: now.offset().local_minus_utc(),
    }
}

} // verus!
