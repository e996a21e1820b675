[package]
name = "jalwa"
version = "0.1.0"
edition = "2021"
publish = false

[dependencies]
uuid = { version = "1", features = ["v4"] }
chrono = "0.4"
serde = { version = "1", features = ["derive"] }
serde_json = "1"
thiserror = "2"
rusqlite = { version = "*", features = ["bundled"] }
walkdir = "2"
notify = "*"
lofty = "*"
clap = { version = "4", features = ["derive"] }
tokio = { version = "1", features = ["rt", "macros", "io-std", "io-util"] }
tarang = "*"
yukti = "*"
ratatui = "*"
crossterm = "*"
