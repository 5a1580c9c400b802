[package]
name = "arb_core"
version = "0.1.0"
edition = "2021"
publish = false

[dependencies]
rust_decimal = "*"
serde_json = "*"
hmac = "*"
sha2 = "*"
hex = "*"
base64 = "*"
serde = { version = "*", features = ["derive"] }
tokio = { version = "*", features = ["full"] }
tokio-tungstenite = "*"
futures-util = "*"
reqwest = { version = "*", default-features = false, features = ["json"] }
chrono = "*"
toml = "*"
uuid = { version = "*", features = ["v4"] }
dashmap = "*"
async-trait = "*"
