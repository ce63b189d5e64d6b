[package]
name = "todo_store"
version = "0.1.0"
edition = "2021"
publish = false

[dependencies]
rusqlite = { version = "*", features = ["bundled"] }
r2d2 = "*"
r2d2_sqlite = "*"
chrono = "*"
serde = { version = "*", features = ["derive"] }
actix-web = "*"
