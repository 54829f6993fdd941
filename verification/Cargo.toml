[package]
name = "todo_store"
version = "0.1.0"
edition = "2021"
publish = false

[dependencies]
surrealdb = { version = "=1.0.0-beta.8", default-features = false, features = ["kv-mem"] }
thiserror = "1"
tokio = { version = "1", features = ["macros", "rt-multi-thread"] }
