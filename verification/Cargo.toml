[package]
name = "position_relay"
version = "0.1.0"
edition = "2021"
publish = false

[dependencies]
serde_json = "*"
axum = { version = "*", features = ["ws"] }
tokio = { version = "*", features = ["macros", "rt-multi-thread", "net"] }
tower-http = { version = "*", features = ["fs"] }
