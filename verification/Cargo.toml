[package]
name = "updater"
version = "0.1.0"
edition = "2021"
publish = false

[dependencies]
serde = { version = "1", features = ["derive"] }
serde_json = "1"
log = "0.4"
fern = { version = "*", features = ["date-based"] }
chrono = "0.4"
sysinfo = "*"
