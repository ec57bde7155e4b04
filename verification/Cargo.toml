[package]
name = "huecycle"
version = "0.1.0"
edition = "2021"
publish = false

[dependencies]
btleplug = "*"
chrono = "*"
log = "*"
sunrise = "*"
systemd-journal-logger = "*"
tokio = { version = "*", features = ["macros", "rt-multi-thread", "time"] }
uuid = "*"
