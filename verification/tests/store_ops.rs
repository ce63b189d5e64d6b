//! The resource operations against a real embedded store: one in-memory
//! SQLite database behind a pool of one connection, so that every lease
//! sees the same contents.

use todo_store::error::TodoError;
use todo_store::model::{GetTodoReqPath, PostTodoReq};
use todo_store::ops::{get_todo, handle_get_todo, init_db, list_todos, post_todo, post_todo_now};
use todo_store::timestamp::Timestamp;
use todo_store::{SqlitePool, manager_in_memory, pool_new};

fn fresh_pool() -> SqlitePool {
    let pool = pool_new(manager_in_memory(), 1).unwrap();
    init_db(&pool).unwrap();
    pool
}

fn req(title: &str, body: Option<&str>) -> PostTodoReq {
    PostTodoReq { title: String::from(title), body: body.map(String::from) }
}

#[test]
fn example_scenario() {
    let pool = fresh_pool();
    let id = post_todo(&pool, &req("buy milk", Some("2%")), None).unwrap();
    assert_eq!(id, 1);
    let todo = get_todo(&pool, 1).unwrap();
    assert_eq!(todo.id, 1);
    assert_eq!(todo.title, "buy milk");
    assert_eq!(todo.body, "2%");
    assert!(todo.created_at.is_none());
    assert!(matches!(get_todo(&pool, 999), Err(TodoError::NotFound)));
}

#[test]
fn insert_then_fetch_round_trips_all_fields() {
    let pool = fresh_pool();
    let stamp = Timestamp {
        year: 2024,
        month: 6,
        day: 15,
        hour: 12,
        minute: 30,
        second: 45,
        offset_minutes: 540,
    };
    let id = post_todo(&pool, &req("title text", Some("body text")), Some(stamp)).unwrap();
    let todo = get_todo(&pool, id).unwrap();
    assert_eq!(todo.title, "title text");
    assert_eq!(todo.body, "body text");
    assert_eq!(todo.created_at, Some(stamp));
}

#[test]
fn absent_body_reads_back_empty() {
    let pool = fresh_pool();
    let id = post_todo(&pool, &req("no body", None), None).unwrap();
    let todo = get_todo(&pool, id).unwrap();
    assert_eq!(todo.body, "");
}

#[test]
fn fetching_an_id_never_inserted_is_not_found() {
    let pool = fresh_pool();
    assert!(matches!(get_todo(&pool, 1), Err(TodoError::NotFound)));
    post_todo(&pool, &req("only one", None), None).unwrap();
    assert!(matches!(get_todo(&pool, 2), Err(TodoError::NotFound)));
    assert!(matches!(get_todo(&pool, -5), Err(TodoError::NotFound)));
}

#[test]
fn inserted_ids_are_pairwise_distinct() {
    let pool = fresh_pool();
    let mut ids = Vec::new();
    for i in 0..10 {
        let title = format!("item {}", i);
        let id = post_todo(&pool, &req(&title, None), None).unwrap();
        ids.push(id);
    }
    for a in 0..ids.len() {
        for b in 0..ids.len() {
            if a != b {
                assert_ne!(ids[a], ids[b]);
            }
        }
    }
}

#[test]
fn blank_title_is_rejected_before_the_store() {
    let pool = fresh_pool();
    assert_eq!(post_todo(&pool, &req("", None), None), Err(TodoError::Validation));
    assert_eq!(post_todo(&pool, &req("   ", Some("body")), None), Err(TodoError::Validation));
    assert_eq!(post_todo(&pool, &req(" \t\r\n", None), None), Err(TodoError::Validation));
    assert_eq!(post_todo(&pool, &req("\u{00A0}", None), None), Err(TodoError::Validation));
    assert_eq!(post_todo(&pool, &req("\u{00A0}\u{2007} ", None), None), Err(TodoError::Validation));
    assert_eq!(list_todos(&pool).unwrap().len(), 0);
}

#[test]
fn list_returns_all_inserts_in_insertion_order() {
    let pool = fresh_pool();
    let titles = ["first", "second", "third"];
    let mut ids = Vec::new();
    for title in titles {
        ids.push(post_todo(&pool, &req(title, None), None).unwrap());
    }
    let todos = list_todos(&pool).unwrap();
    assert_eq!(todos.len(), 3);
    for (i, todo) in todos.iter().enumerate() {
        assert_eq!(todo.id, ids[i]);
        assert_eq!(todo.title, titles[i]);
    }
}

#[test]
fn list_on_empty_store_is_empty() {
    let pool = fresh_pool();
    assert_eq!(list_todos(&pool).unwrap().len(), 0);
}

#[test]
fn schema_initialization_is_idempotent() {
    let pool = pool_new(manager_in_memory(), 1).unwrap();
    init_db(&pool).unwrap();
    init_db(&pool).unwrap();
    post_todo(&pool, &req("still works", None), None).unwrap();
    assert_eq!(list_todos(&pool).unwrap().len(), 1);
}

#[test]
fn insert_with_clock_policy_stores_a_readable_timestamp() {
    let pool = fresh_pool();
    let id = post_todo_now(&pool, &req("timed", None)).unwrap();
    let todo = get_todo(&pool, id).unwrap();
    let stamp = todo.created_at.expect("the clock policy stores a timestamp");
    assert!(1 <= stamp.month && stamp.month <= 12);
    assert!(1 <= stamp.day && stamp.day <= 31);
    assert!(stamp.hour <= 23 && stamp.minute <= 59 && stamp.second <= 59);
}

#[test]
fn path_parameter_is_checked_before_the_store() {
    let pool = fresh_pool();
    post_todo(&pool, &req("buy milk", Some("2%")), None).unwrap();
    let ok = handle_get_todo(&pool, &GetTodoReqPath { id: String::from("1") }).unwrap();
    assert_eq!(ok.todo.id, 1);
    assert_eq!(ok.todo.title, "buy milk");
    let bad = handle_get_todo(&pool, &GetTodoReqPath { id: String::from("one") });
    assert!(matches!(bad, Err(TodoError::Validation)));
    let missing = handle_get_todo(&pool, &GetTodoReqPath { id: String::from("999") });
    assert!(matches!(missing, Err(TodoError::NotFound)));
}
