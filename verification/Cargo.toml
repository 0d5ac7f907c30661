[package]
name = "askme"
version = "0.1.0"
edition = "2021"
publish = false

[dependencies]
regex = "1"
serde_json = "1"
serde = { version = "1", features = ["derive"] }
serde_yaml = "0.9"
ureq = { version = "2", features = ["json"] }
clap = { version = "4", features = ["derive"] }
dirs = "5"
sys-locale = "0.3"
