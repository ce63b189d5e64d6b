//! Input checks at the operation boundary and row mapping on plain values.

use todo_store::error::{MappingError, TodoError};
use todo_store::mapper::{TodoRow, map_rows, row_to_todo};
use todo_store::model::{parse_id, title_is_blank};
use todo_store::timestamp::Timestamp;

#[test]
fn parse_id_accepts_plain_decimal() {
    assert_eq!(parse_id("1"), Ok(1));
    assert_eq!(parse_id("42"), Ok(42));
    assert_eq!(parse_id("007"), Ok(7));
    assert_eq!(parse_id("9223372036854775807"), Ok(i64::MAX));
}

#[test]
fn parse_id_rejects_non_numeric_text() {
    assert_eq!(parse_id(""), Err(TodoError::Validation));
    assert_eq!(parse_id("abc"), Err(TodoError::Validation));
    assert_eq!(parse_id("12a"), Err(TodoError::Validation));
    assert_eq!(parse_id("-1"), Err(TodoError::Validation));
    assert_eq!(parse_id(" 1"), Err(TodoError::Validation));
    assert_eq!(parse_id("1.5"), Err(TodoError::Validation));
}

#[test]
fn parse_id_rejects_overflowing_value() {
    assert_eq!(parse_id("9223372036854775808"), Err(TodoError::Validation));
    assert_eq!(parse_id("99999999999999999999999"), Err(TodoError::Validation));
}

#[test]
fn blank_titles_are_blank() {
    assert!(title_is_blank(""));
    assert!(title_is_blank(" "));
    assert!(title_is_blank("   \t\r\n"));
    assert!(!title_is_blank("a"));
    assert!(!title_is_blank("  a  "));
    assert!(!title_is_blank("buy milk"));
}

#[test]
fn unicode_whitespace_titles_are_blank() {
    assert!(title_is_blank("\u{00A0}"));
    assert!(title_is_blank("\u{2003}\u{3000}"));
    assert!(title_is_blank(" \u{00A0}\u{202F}\u{2028}"));
    assert!(!title_is_blank("a\u{00A0}"));
    assert!(!title_is_blank("\u{00A0}b"));
}

#[test]
fn row_without_timestamp_maps_to_absent() {
    let row = TodoRow {
        id: 7,
        title: String::from("t"),
        body: Some(String::from("b")),
        created_at: None,
    };
    let todo = row_to_todo(&row).unwrap();
    assert_eq!(todo.id, 7);
    assert_eq!(todo.title, "t");
    assert_eq!(todo.body, "b");
    assert!(todo.created_at.is_none());
}

#[test]
fn row_with_null_body_maps_to_empty_body() {
    let row = TodoRow { id: 1, title: String::from("t"), body: None, created_at: None };
    let todo = row_to_todo(&row).unwrap();
    assert_eq!(todo.body, "");
}

#[test]
fn row_with_stored_timestamp_maps_to_parsed_value() {
    let row = TodoRow {
        id: 1,
        title: String::from("t"),
        body: None,
        created_at: Some(String::from("2024-01-02T03:04:05+09:00")),
    };
    let todo = row_to_todo(&row).unwrap();
    let expected = Timestamp {
        year: 2024,
        month: 1,
        day: 2,
        hour: 3,
        minute: 4,
        second: 5,
        offset_minutes: 540,
    };
    assert_eq!(todo.created_at, Some(expected));
}

#[test]
fn row_with_malformed_timestamp_is_a_mapping_error() {
    let row = TodoRow {
        id: 1,
        title: String::from("t"),
        body: None,
        created_at: Some(String::from("yesterday")),
    };
    assert_eq!(
        row_to_todo(&row).unwrap_err(),
        TodoError::Mapping(MappingError::TimestampParseFailed)
    );
}

#[test]
fn mapping_many_rows_keeps_order_and_fails_on_first_bad_row() {
    let rows = vec![
        TodoRow { id: 1, title: String::from("a"), body: None, created_at: None },
        TodoRow { id: 2, title: String::from("b"), body: Some(String::from("x")), created_at: None },
    ];
    let todos = map_rows(&rows).unwrap();
    assert_eq!(todos.len(), 2);
    assert_eq!(todos[0].id, 1);
    assert_eq!(todos[1].id, 2);
    assert_eq!(todos[1].body, "x");

    let bad = vec![
        TodoRow { id: 1, title: String::from("a"), body: None, created_at: None },
        TodoRow { id: 2, title: String::from("b"), body: None, created_at: Some(String::from("??")) },
    ];
    assert_eq!(
        map_rows(&bad).unwrap_err(),
        TodoError::Mapping(MappingError::TimestampParseFailed)
    );
}

#[test]
fn error_kinds_have_stable_names() {
    assert_eq!(TodoError::Validation.kind_name(), "validation error");
    assert_eq!(TodoError::NotFound.kind_name(), "not found");
    assert_eq!(TodoError::Pool.kind_name(), "pool error");
    assert_eq!(TodoError::Store.kind_name(), "store error");
    assert_eq!(
        TodoError::Mapping(MappingError::TimestampParseFailed).kind_name(),
        "mapping error"
    );
}
