[package]
name = "weathd"
version = "0.1.0"
edition = "2021"
publish = false

[dependencies]
json = "0.12"
chrono = "0.4"
clap = { version = "4", features = ["derive"] }
daemonize = "0.5"
home = "0.5"
notify-rust = "4"
reqwest = { version = "0.12", default-features = false, features = ["blocking"] }
ron = "0.8"
serde = { version = "1", features = ["derive"] }
