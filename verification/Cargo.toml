[package]
name = "pellxd"
version = "0.1.0"
edition = "2021"
publish = false

[dependencies]
chrono = "0.4"
humantime = "2"
serde_json = "1"
serde = { version = "1", features = ["derive"] }
humantime-serde = "1"
clap = { version = "4", features = ["derive"] }
confy = "*"
rppal = "*"
ureq = "3"
