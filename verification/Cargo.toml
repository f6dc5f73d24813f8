[package]
name = "sdkwork-image"
version = "0.1.0"
edition = "2021"
publish = false

[dependencies]
async-trait = "0.1"
axum = "0.8"
parking_lot = "0.12"
reqwest = { version = "0.12", default-features = false }
serde = { version = "1", features = ["derive"] }
serde_json = "1"
sqlx = { version = "0.8", default-features = false, features = ["postgres", "runtime-tokio", "json"] }
thiserror = "2"
tokio = { version = "1", features = ["rt", "macros", "sync", "time"] }
tower = { version = "0.5", features = ["util"] }
tracing = "0.1"
