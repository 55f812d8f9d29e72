[package]
name = "model_client_rs"
version = "0.1.0"
edition = "2021"
publish = false

[dependencies]
serde_json = "*"
uuid = { version = "*", features = ["v4"] }
serde = { version = "*", features = ["derive"] }
reqwest = { version = "*", default-features = false, features = ["json", "rustls-tls", "stream"] }
tokio = { version = "*", features = ["macros", "rt-multi-thread", "time"] }
futures = "*"
async-trait = "*"
clap = "*"
metrics = "*"
tracing-subscriber = { version = "*", features = ["env-filter"] }
