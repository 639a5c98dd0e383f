[package]
name = "mpris_service"
version = "0.1.0"
edition = "2021"
publish = false

[dependencies]
anyhow = "*"
futures = "*"
log = "*"
tokio = { version = "*", features = ["macros", "rt", "sync", "time"] }
zbus = { version = "*", default-features = false, features = ["tokio"] }
