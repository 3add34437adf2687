[package]
name = "absurd"
version = "0.1.0"
edition = "2021"
publish = false

[dependencies]
chrono = { version = "0.4", features = ["serde"] }
deadpool-postgres = "0.14"
serde = "1"
serde_json = "1"
tokio-postgres = { version = "0.7", features = ["with-chrono-0_4", "with-serde_json-1", "with-uuid-1"] }
uuid = "1"

[dev-dependencies]
tokio = { version = "1", features = ["io-util", "rt"] }
