[package]
name = "content"
version = "0.1.0"
edition = "2021"
publish = false

[dependencies]
anyhow = "1"
bytes = "1"
sea-query = { version = "1", default-features = false, features = ["backend-postgres", "postgres-array", "with-json", "with-time", "with-uuid"] }
sea-query-sqlx = { version = "0.9", features = ["postgres-array", "sqlx-postgres", "with-json", "with-time", "with-uuid"] }
serde_json = "1"
sqlx = { version = "0.9", default-features = false, features = ["derive", "json", "postgres", "runtime-tokio", "time", "uuid"] }
thiserror = "2"
time = "0.3"
tokio = { version = "1", default-features = false, features = ["rt"] }
uuid = { version = "1", features = ["v7"] }
