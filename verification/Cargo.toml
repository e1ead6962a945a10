[package]
name = "ekman"
version = "0.1.0"
edition = "2021"
publish = false

[dependencies]
base32 = "0.5"
chrono = { version = "0.4", features = ["serde"] }
color-eyre = "0.6"
qrcode = "*"
rand = "0.8"
ratatui = "*"
reqwest = { version = "0.12", default-features = false, features = ["cookies", "json"] }
serde = { version = "1", features = ["derive"] }
serde_json = "1"
tokio = { version = "1", features = ["macros", "rt-multi-thread", "sync"] }
tui-qrcode = "*"
