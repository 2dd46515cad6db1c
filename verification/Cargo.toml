[package]
name = "xplr"
version = "0.1.0"
edition = "2021"
publish = false

[dependencies]
anyhow = "=1.0.104"
chrono = "=0.4.45"
dirs = "=5.0.1"
indexmap = { version = "=2.14.2", features = ["serde"] }
mlua = { version = "=0.9.9", features = ["luajit", "vendored", "serialize", "send"] }
regex = "1"
serde = { version = "=1.0.229", features = ["derive"] }
tui-input = "=0.8.0"
