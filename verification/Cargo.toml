[package]
name = "hypersync_client"
version = "0.1.0"
edition = "2021"
publish = false

[dependencies]
anyhow = "*"
fastrange-rs = "*"
log = "*"
rand = "*"
reqwest = { version = "*", default-features = false, features = ["json"] }
serde = { version = "*", features = ["derive"] }
serde_json = "*"
tokio = { version = "*", default-features = false, features = ["rt-multi-thread", "sync", "time", "macros"] }
url = "*"
