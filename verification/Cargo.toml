[package]
name = "orangu_console"
version = "0.1.0"
edition = "2021"
publish = false

[dependencies]
anyhow = "1"
clap = { version = "4", features = ["derive"] }
crossterm = "*"
home = "0.5"
ignore = "0.4"
markdown = "1"
reqwest = { version = "0.12", default-features = false, features = ["json", "rustls-tls"] }
serde = { version = "1", features = ["derive"] }
syntect = "5"
terminal_size = "0.4"
tiktoken-rs = "*"
tokio = { version = "1", features = ["macros", "rt-multi-thread", "sync", "time"] }
walkdir = "2"
