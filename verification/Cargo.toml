[package]
name = "scx_wifi"
version = "1.0.0"
edition = "2021"
publish = false

[dependencies]
anyhow = "*"
candle-core = "*"
candle-nn = "*"
clap = { version = "*", features = ["derive"] }
futures-util = "*"
log = "*"
procfs = "*"
rtnetlink = "*"
serde = { version = "*", features = ["derive"] }
serde_json = "*"
simplelog = "*"
tokio = { version = "*", features = ["full"] }
