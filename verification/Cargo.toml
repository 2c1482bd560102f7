[package]
name = "itam_agent"
version = "0.1.0"
edition = "2021"
publish = false

[dependencies]
reqwest = { version = "0.12", default-features = false, features = ["json"] }
serde = { version = "1", features = ["derive"] }
serde_json = "1"
sysinfo = "0.30"
hostname = "*"
dirs = "*"
tokio = { version = "1", features = ["rt-multi-thread"] }
lazy_static = "1"
