[package]
name = "tss_network"
version = "0.1.0"
edition = "2021"
publish = false

[dependencies]
multi-party-ecdsa = "0.8"
curv-kzen = "0.9"
kzen-paillier = "0.4"
aes-gcm = "0.9"
hmac = "0.11"
sha2 = "0.9"
hex = "0.4"
uuid = { version = "1", features = ["v4"] }
rand = "0.8"
serde = { version = "1", features = ["derive"] }
serde_json = "1"
jsonwebtoken = "9"
thiserror = "1"
anyhow = "1"
zeroize = "1"
rocket = { version = "0.5", features = ["json"] }
tokio = { version = "1", features = ["macros", "rt-multi-thread", "sync", "time"] }
reqwest = { version = "0.11", default-features = false, features = ["json"] }
futures = "0.3"
clap = { version = "4", features = ["derive"] }
tracing = "0.1"
tracing-subscriber = "0.3"
