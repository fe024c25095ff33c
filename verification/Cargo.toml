[package]
name = "pilfer"
version = "0.1.0"
edition = "2021"
publish = false

[dependencies]
todel = "*"
serde_json = "*"
serde = { version = "*", features = ["derive"] }
rand = "0.8"
tokio = { version = "*", features = ["rt-multi-thread", "macros", "sync", "time", "fs"] }
tokio-tungstenite = "*"
futures = "*"
reqwest = { version = "*", default-features = false, features = ["json"] }
notify-rust = "*"
tui = "0.19"
crossterm = "0.25"
unicode-width = "*"
anyhow = "*"
directories = "*"
rpassword = "*"
toml = "*"
regex = "*"
lazy_static = "*"
log = "*"
discord-rich-presence = "*"
