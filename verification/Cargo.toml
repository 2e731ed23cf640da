[package]
name = "pd_router"
version = "0.1.0"
edition = "2021"
publish = false

[dependencies]
async-trait = "0.1"
axum = "0.8"
serde = { version = "1", features = ["derive"] }
serde_json = "1"
tokio = { version = "1", features = ["macros", "sync", "rt"] }
tracing = "0.1"
uuid = { version = "1", features = ["v4"] }
