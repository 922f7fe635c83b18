[package]
name = "pleme_database"
version = "0.1.0"
edition = "2021"
publish = false

[dependencies]
redis = { version = "0.27", default-features = false, features = ["aio", "tokio-comp", "connection-manager"] }
sqlx = { version = "0.8", default-features = false, features = ["postgres", "runtime-tokio"] }
async-trait = "0.1"
serde = { version = "1", features = ["derive"] }
serde_json = "1"
thiserror = "1"
tracing = "0.1"
