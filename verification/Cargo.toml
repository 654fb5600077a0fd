[package]
name = "toplevel_watcher"
version = "0.1.0"
edition = "2021"
publish = false

[dependencies]
tokio = { version = "1", features = ["sync", "rt", "time"] }
anyhow = "1"
log = "0.4"
async-trait = "0.1"
cosmic-client-toolkit = "*"
