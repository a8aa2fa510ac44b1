[package]
name = "the_entity"
version = "0.1.0"
edition = "2021"
publish = false

[dependencies]
base64 = "=0.22.1"
serde = { version = "=1.0.229", features = ["derive"] }
serde_json = "=1.0.154"
spacetimedb = { version = "=2.1.0", features = ["unstable"] }
