[package]
name = "aether_matrix"
version = "0.1.0"
edition = "2021"
publish = false

[dependencies]
anyhow = "=1.0.104"
async-openai = { version = "=0.43.0", features = ["chat-completion"] }
async-trait = "=0.1.92"
futures-util = "=0.3.34"
matrix-sdk = { version = "=0.16.1", default-features = false, features = ["rustls-tls"] }
mime = "=0.3.17"
tokio = { version = "=1.54.1", features = ["full"] }
tracing = "=0.1.44"
tracing-subscriber = "=0.3.23"
