[package]
name = "proof_relay"
version = "0.1.0"
edition = "2021"
publish = false

[dependencies]
web3 = { version = "*", default-features = false, features = ["http", "signing"] }
secp256k1 = "*"
serde = { version = "*", features = ["derive"] }
serde_json = "*"
tokio = { version = "*", features = ["macros", "rt-multi-thread", "net"] }
axum = "*"
reqwest = { version = "*", default-features = false, features = ["json"] }
dotenv = "*"
