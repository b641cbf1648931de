[package]
name = "bld"
version = "0.1.0"
edition = "2021"
publish = false

[dependencies]
actix = "0.10"
actix-web = { version = "3", default-features = false }
actix-web-actors = "3"
anyhow = "1"
awc = { version = "2", default-features = false }
clap = "2"
env_logger = "0.8"
futures = "0.3"
futures-util = "0.3"
serde = { version = "1", features = ["derive"] }
serde_json = "1"
shiplift = { version = "0.7", default-features = false, features = ["unix-socket"] }
tokio = { version = "0.2", features = ["rt-core", "rt-threaded"] }
uuid = { version = "0.8", features = ["v4"] }
yaml-rust = "0.4"
