[package]
name = "chocho_session"
version = "0.1.0"
edition = "2021"
publish = false

[dependencies]
hex = "0.4"
rand = "0.8"
rand_chacha = "0.3"
serde_json = "1"
tokio = { version = "1", features = ["fs", "rt", "time"] }
