[package]
name = "nms"
version = "0.1.0"
edition = "2021"
publish = false

[dependencies]
anyhow = "=1.0.104"
clap = { version = "=4.6.7", features = ["derive"] }
clap_complete = "=4.6.11"
comfy-table = "=8.0.1"
linapi = "=0.5.3"
pager = "=0.16.1"
quit = "=2.0.0"
