[package]
name = "ollama_rust_sdk"
version = "0.1.0"
edition = "2021"
publish = false

[dependencies]
url = "*"
chrono = { version = "*", features = ["serde"] }
serde = { version = "*", features = ["derive"] }
serde_json = "*"
reqwest = { version = "*", default-features = false, features = ["json", "stream"] }
tokio = { version = "*", features = ["rt-multi-thread", "macros", "time"] }
tokio-stream = "*"
futures-util = "*"
clap = { version = "*", features = ["derive"] }
env_logger = "*"
thiserror = "*"
