[package]
name = "rusty_forecast"
version = "0.1.0"
edition = "2021"
publish = false

[dependencies]
chrono = { version = "0.4", features = ["serde"] }
nickel = "0.11"
postgres = { version = "0.19", features = ["with-chrono-0_4"] }
postgres-types = "0.2"
reqwest = { version = "0.11", features = ["blocking", "json"] }
serde = { version = "1", features = ["derive"] }
serde_json = "1"
