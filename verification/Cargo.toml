[package]
name = "esparrier-config"
version = "0.1.0"
edition = "2021"
publish = false

[dependencies]
anyhow = "1"
clap = { version = "4", features = ["derive"] }
clap-num = "1"
clap_complete = "4"
env_logger = "0.11"
flate2 = "1"
futures = "0.3"
log = "0.4"
nusb = { version = "0.2", features = ["tokio"] }
reqwest = { version = "0.12", features = ["json", "stream"] }
semver = "1"
serde = { version = "1", features = ["derive"] }
serde_json = "1"
tar = "0.4"
thiserror = "2"
tokio = { version = "1", features = ["macros", "rt-multi-thread", "sync", "time"] }
