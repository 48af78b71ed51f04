[package]
name = "kew"
version = "0.1.0"
edition = "2021"
publish = false

[dependencies]
serde = { version = "=1.0.229", features = ["derive"] }
serde_json = "=1.0.151"
reqwest = { version = "=0.13.5", default-features = false, features = ["json"] }
tokio = { version = "=1.53.2", features = ["time"] }
urn = { version = "=0.7.0", features = ["serde"] }
async-trait = "=0.1.92"
