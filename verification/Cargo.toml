[package]
name = "termirust_console"
version = "0.1.0"
edition = "2021"
publish = false

[dependencies]
dirs = "6"
rfd = { version = "0.15", default-features = false, features = ["xdg-portal", "async-std"] }
tokio-util = "0.7"
uuid = "1"
