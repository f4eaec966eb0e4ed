[package]
name = "node_reactor"
version = "0.1.0"
edition = "2021"
publish = false

[dependencies]
base64 = "0.12"
ed25519-dalek = "1"
hex = "0.4"
pem = "0.8"
rand = "0.7"
rand_chacha = "0.2"
serde = { version = "1", features = ["derive"] }
thiserror = "1"
tracing = "0.1"
