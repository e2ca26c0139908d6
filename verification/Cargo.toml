[package]
name = "echo_service"
version = "0.1.0"
edition = "2021"
publish = false

[dependencies]
axum = "*"
futures = "*"
tokio = { version = "*", features = ["macros", "rt-multi-thread", "net"] }
tokio-util = { version = "*", features = ["io"] }

[dev-dependencies]
serde_json = "*"
