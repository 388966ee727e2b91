[package]
name = "cosmic_vimified"
version = "0.1.0"
edition = "2021"
publish = false

[dependencies]
anyhow = "*"
atspi = "*"
atspi-connection = "*"
atspi-proxies = "*"
clap = { version = "*", features = ["derive"] }
serde = { version = "*", features = ["derive"] }
tokio = { version = "*", features = ["rt-multi-thread", "macros", "sync", "time"] }
tracing = "*"
tracing-subscriber = { version = "*", features = ["env-filter"] }
zbus = "*"
