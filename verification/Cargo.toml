[package]
name = "zkaf"
version = "0.1.0"
edition = "2021"
publish = false

[dependencies]
hashbrown = { version = "=0.14.5", features = ["serde"] }
serde = { version = "=1.0.229", features = ["derive"] }
serde_json = "=1.0.154"
p256 = { version = "=0.13.2", features = ["pem"] }
elliptic-curve = { version = "=0.13.8", features = ["pem"] }
risc0-zkvm = { version = "=3.0.6", default-features = false, features = ["client"] }
