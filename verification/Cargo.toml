[package]
name = "earthmc"
version = "0.1.0"
edition = "2021"
publish = false

[dependencies]
rand = "=0.9.5"
serde = { version = "=1.0.229", features = ["derive"] }
serde_json = "=1.0.151"
reqwest = { version = "=0.12.28", default-features = false, features = ["json"] }
tokio = { version = "=1.53.2", features = ["time"] }
parking_lot = "=0.12.5"
uuid = { version = "=1.27.0", features = ["serde"] }
