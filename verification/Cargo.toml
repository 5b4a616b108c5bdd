[package]
name = "wordweaver"
version = "0.1.0"
edition = "2021"
publish = false

[dependencies]
async_once = "0.2"
axum = { version = "0.7", features = ["ws"] }
futures = "0.3"
lazy_static = "1"
rand = "0.8"
serde = { version = "1", features = ["derive"] }
serde_json = "1"
tokio = { version = "1", features = ["full"] }
tokio-tungstenite = "0.24"
tower-http = { version = "0.6", features = ["cors", "fs", "trace"] }
tracing = "0.1"
tracing-subscriber = "0.3"
utoipa = { version = "4", features = ["axum_extras"] }
utoipa-swagger-ui = { version = "7", features = ["axum", "vendored"] }
