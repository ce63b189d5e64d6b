//! The record mapper: translation between the stored row shape and the
//! in-memory `Todo`.
//!
//! A row read from the store is plain data — positional, typed columns with
//! an optional `created_at` text.  Mapping parses that text into the
//! structured timestamp; malformed text is a mapping error, never silently
//! coerced to an absent timestamp.

use vstd::prelude::*;
use crate::error::{MappingError, TodoError};
use crate::model::Todo;
use crate::timestamp::{Timestamp, parse_rfc3339, parse_rfc3339_spec};

verus! {

/// One row of the `todo` table as plain column values, with no reference
/// back to the connection that produced it.
#[derive(Debug)]
pub struct TodoRow {
    /// The integer primary key.
    pub id: i64,
    /// The title column.
    pub title: String,
    /// The body column as stored: null stays distinct here and becomes the
    /// empty string when the row is mapped.
    pub body: Option<String>,
    /// The `created_at` column: absent or null reads as `None`.
    pub created_at: Option<String>,
}

impl TodoRow {
    /// Builds a row from its column values.
    pub fn new(id: i64, title: String, body: Option<String>, created_at: Option<String>) -> (r: TodoRow)
        ensures
            r.id == id,
            r.title == title,
            r.body == body,
            r.created_at == created_at,
    {
        TodoRow { id, title, body, created_at }
    }
}

/// Whether a row can be mapped: its `created_at`, when present, is a
/// well-formed stored timestamp.
pub open spec fn row_maps_ok(row: TodoRow) -> bool {
    match row.created_at {
        None => true,
        Some(s) => parse_rfc3339_spec(s@) is Some,
    }
}

/// The structured timestamp a mappable row carries.
pub open spec fn mapped_created_at(row: TodoRow) -> Option<Timestamp> {
    match row.created_at {
        None => None,
        Some(s) => parse_rfc3339_spec(s@),
    }
}

/// The body text a row denotes: the stored text, or empty where the
/// column is null.
pub open spec fn row_body_text(row: TodoRow) -> Seq<char> {
    match row.body {
        None => Seq::<char>::empty(),
        Some(s) => s@,
    }
}

/// The mapped `Todo` carries exactly the row's column values.
pub open spec fn todo_matches_row(todo: Todo, row: TodoRow) -> bool {
    &&& todo.id == row.id
    &&& todo.title@ == row.title@
    &&& todo.body@ == row_body_text(row)
    &&& todo.created_at == mapped_created_at(row)
}

/// Round-trip law: a stored row that carries the written text of a
/// well-formed timestamp maps back successfully, and to that very
/// timestamp.  Together with `row_to_todo` carrying title and body
/// verbatim, inserting a record and mapping its stored row recovers every
/// field that was written.
pub proof fn lemma_insert_row_round_trip(row: TodoRow, t: Timestamp)
    requires
        t.wf(),
        row.created_at matches Some(s) && s@ == crate::timestamp::fmt_rfc3339(t),
    ensures
        row_maps_ok(row),
        mapped_created_at(row) == Some(t),
{
    crate::timestamp::lemma_parse_of_format(t);
}

/// Maps one stored row to the in-memory representation.
///
/// Succeeds exactly when the row's `created_at` is absent or well-formed;
/// a present but malformed timestamp is a mapping error.
pub fn row_to_todo(row: &TodoRow) -> (r: Result<Todo, TodoError>)
    ensures
        r matches Ok(todo) ==> row_maps_ok(*row) && todo_matches_row(todo, *row),
        r is Ok <==> row_maps_ok(*row),
        r is Err ==> r == Err::<Todo, TodoError>(
            TodoError::Mapping(MappingError::TimestampParseFailed),
        ),
{
    let created: Option<Timestamp> = match &row.created_at {
        None => None,
        Some(s) => match parse_rfc3339(s.as_str()) {
            Some(t) => Some(t),
            None => {
                return Err(TodoError::Mapping(MappingError::TimestampParseFailed));
            },
        },
    };
    let body: String = match &row.body {
        None => String::new(),
        Some(s) => s.clone(),
    };
    Ok(Todo { id: row.id, title: row.title.clone(), body, created_at: created })
}

/// Maps a sequence of stored rows in order.
///
/// Succeeds exactly when every row maps, and then yields one `Todo` per
/// row, in the same order, each carrying its row's column values; the
/// first unmappable row surfaces as a mapping error.
pub fn map_rows(rows: &Vec<TodoRow>) -> (r: Result<Vec<Todo>, TodoError>)
    ensures
        r matches Ok(todos) ==> todos@.len() == rows@.len() && forall|i: int|
            0 <= i < rows@.len() ==> todo_matches_row(#[trigger] todos@[i], rows@[i]),
        r is Ok <==> (forall|i: int| 0 <= i < rows@.len() ==> row_maps_ok(#[trigger] rows@[i])),
        r is Err ==> r == Err::<Vec<Todo>, TodoError>(
            TodoError::Mapping(MappingError::TimestampParseFailed),
        ),
{
    let n = rows.len();
    let mut todos: Vec<Todo> = Vec::new();
    let mut i: usize = 0;
    while i < n
        invariant
            n == rows@.len(),
            i <= n,
            todos@.len() == i,
            forall|j: int| 0 <= j < i ==> row_maps_ok(#[trigger] rows@[j]),
            forall|j: int| 0 <= j < i ==> todo_matches_row(#[trigger] todos@[j], rows@[j]),
        decreases n - i,
    {
        match row_to_todo(&rows[i]) {
            Ok(todo) => {
                todos.push(todo);
            },
            Err(e) => {
                return Err(e);
            },
        }
        i = i + 1;
    }
    Ok(todos)
}

} // verus!
