[package]
name = "spt_cli"
version = "0.1.0"
edition = "2021"
publish = false

[dependencies]
anyhow = "=1.0.104"
chrono = "=0.4.45"
rand = "=0.8.8"
rspotify = "=0.13.3"
tokio = { version = "=1.54.1", features = ["full"] }
