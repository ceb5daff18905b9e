[package]
name = "tileserver"
version = "0.1.0"
edition = "2021"
publish = false

[dependencies]
flate2 = "1"
r2d2 = "0.8"
r2d2_sqlite = { version = "*", features = ["bundled"] }
hyper = { version = "0.14", features = ["full"] }
tokio = { version = "1", features = ["full"] }
clap = "4"
serde_json = "1"
