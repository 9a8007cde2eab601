[package]
name = "mission_hub"
version = "0.1.0"
edition = "2021"
publish = false

[dependencies]
anyhow = "1"
async-trait = "*"
axum = { version = "*", features = ["ws"] }
chrono = "*"
diesel = { version = "2", features = ["postgres", "r2d2"] }
serde = { version = "*", features = ["derive"] }
serde_json = "*"
tokio = { version = "1", features = ["rt-multi-thread", "macros", "sync", "net", "signal", "time"] }
tower-http = { version = "*", features = ["cors", "fs", "limit", "trace", "timeout"] }
tracing = "*"
