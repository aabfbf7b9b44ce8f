[package]
name = "pwnotify"
version = "0.1.0"
edition = "2021"
publish = false

[dependencies]
anyhow = "*"
notify-rust = "*"
pipewire = "*"
tokio = { version = "*", features = ["macros", "rt-multi-thread", "sync", "signal"] }
tracing = "*"
tracing-subscriber = { version = "*", features = ["env-filter"] }
