[package]
name = "minimax_api"
version = "0.1.0"
edition = "2021"
publish = false

[dependencies]
hex = "0.4"
base64 = "0.22"
serde_json = "1"
serde = { version = "1", features = ["derive"] }
rmcp = { version = "*", features = ["server", "macros", "transport-io"] }
reqwest = { version = "0.12", default-features = false, features = ["json", "multipart", "rustls-tls"] }
tokio = { version = "1", features = ["full"] }
tokio-tungstenite = { version = "*", features = ["rustls-tls-webpki-roots"] }
futures-util = "0.3"
tar = "0.4"
toml = "*"
tracing = "0.1"
tracing-subscriber = { version = "0.3", features = ["env-filter"] }
anyhow = "1"
async-trait = "0.1"
