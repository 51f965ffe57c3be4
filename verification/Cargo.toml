[package]
name = "llmserver_rs"
version = "0.1.0"
edition = "2021"
publish = false

[dependencies]
serde = { version = "=1.0.229", features = ["derive"] }
serde_json = "=1.0.151"
tokio = { version = "=1.53.2", features = ["sync", "rt-multi-thread", "macros", "time"] }
tokio-stream = "=0.1.19"
futures = "=0.3.34"
hf-hub = "=0.5.0"
clap = { version = "=4.6.7", default-features = false, features = ["std", "help", "usage"] }
autotokenizer = "=0.1.5"
actix-web = { version = "=4.15.0", default-features = false }
