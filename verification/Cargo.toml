[package]
name = "session_router"
version = "0.1.0"
edition = "2021"
publish = false

[dependencies]
axum = "0.7"
elm_rs = "*"
futures = "0.3"
serde = { version = "1", features = ["derive"] }
tokio = { version = "1", features = ["macros", "net", "rt-multi-thread", "sync", "time"] }
tokio-stream = "0.1"
tower-http = { version = "0.5", features = ["fs"] }
uuid = { version = "1", features = ["serde", "v4"] }
