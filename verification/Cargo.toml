[package]
name = "alleycat"
version = "0.1.0"
edition = "2021"
publish = false

[dependencies]
anyhow = "1"
async-trait = "0.1"
chrono = "0.4"
directories = "5"
futures = "0.3"
jsonschema = { version = "*", default-features = false }
rand = "0.8"
reqwest = { version = "0.12", default-features = false, features = ["json", "stream"] }
serde = { version = "1", features = ["derive"] }
serde_json = "1"
thiserror = "1"
tokio = { version = "1", features = ["full"] }
tokio-tungstenite = "*"
tracing = "0.1"
uuid = { version = "1", features = ["v4", "v7"] }
which = "*"
