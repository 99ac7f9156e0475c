[package]
name = "bluetooth"
version = "0.1.0"
edition = "2021"
publish = false

[dependencies]
anyhow = "1"
iced = { version = "0.14", default-features = false, features = ["tokio", "x11"] }
inotify = "0.11"
log = "0.4"
tokio = { version = "1", features = ["process", "rt", "time"] }
zbus = { version = "5", default-features = false, features = ["tokio"] }
