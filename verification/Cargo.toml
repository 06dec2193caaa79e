[package]
name = "faithful"
version = "0.1.0"
edition = "2021"
publish = false

[dependencies]
mlua = { version = "0.10", features = ["lua54", "vendored"] }
serde = { version = "1", features = ["derive"] }
bincode = { version = "2", features = ["serde"] }
log = "0.4"
