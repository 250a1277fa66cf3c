[package]
name = "op_charge_controller"
version = "0.1.0"
edition = "2021"
publish = false

[dependencies]
taplo = "*"
anyhow = "1"
arc-swap = "1"
serde = { version = "1", features = ["derive"] }
toml = "*"
tracing = "0.1"
tracing-subscriber = { version = "0.3", features = ["env-filter"] }
chrono = "0.4"
inotify = "*"
rustix = { version = "*", features = ["fs", "mount"] }
mimalloc = "*"
dumpsys-rs = "*"
