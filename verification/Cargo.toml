[package]
name = "clash_tui"
version = "0.1.0"
edition = "2021"
publish = false

[dependencies]
anyhow = "1"
base64 = "0.22"
chrono = "0.4"
config = { version = "*", default-features = false, features = ["ini"] }
crossterm = "0.28"
futures-util = "0.3"
humansize = "2"
indexmap = "2"
ratatui = "0.29"
reqwest = { version = "0.12", default-features = false, features = ["json"] }
serde = { version = "1", features = ["derive"] }
serde_json = "1"
textwrap = "0.16"
tokio = { version = "1", features = ["rt-multi-thread", "macros", "sync", "time"] }
tokio-tungstenite = "*"
url = "2"
