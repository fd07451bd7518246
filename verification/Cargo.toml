[package]
name = "kakuremino"
version = "0.1.0"
edition = "2021"
publish = false

[dependencies]
async-trait = "0.1"
pin-project-lite = "0.2"
serde = { version = "1", features = ["derive"] }
thiserror = "2"
tokio = { version = "1", features = ["net", "io-util", "rt", "macros", "time"] }
tokio-socks = "0.5"
tracing = "0.1"

[dev-dependencies]
serde_json = "1"
