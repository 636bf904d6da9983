[package]
name = "rust_live_server"
version = "0.1.0"
edition = "2021"
publish = false

[dependencies]
tokio = { version = "1", features = ["sync", "rt", "rt-multi-thread", "macros", "time"] }
tokio-util = "0.7"
actix-web = { version = "4", default-features = false, features = ["macros"] }
actix-ws = "*"
futures-util = "0.3"
serde = { version = "1", features = ["derive"] }
serde_json = "1"
env_logger = "*"
