[package]
name = "api"
version = "0.1.0"
edition = "2021"
publish = false

[dependencies]
hex = "0.4"
secp256k1 = { version = "0.28", features = ["rand-std"] }
ethers-core = { version = "2", default-features = false }
ethers-providers = "2"
axum = "0.7"
tokio = { version = "1", features = ["macros", "rt-multi-thread", "net"] }
serde = { version = "1", features = ["derive"] }
dotenvy = "0.15"
tracing = "0.1"
anyhow = "1"
derive-getters = "*"
