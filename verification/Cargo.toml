[package]
name = "todoproxy"
version = "0.1.0"
edition = "2021"
publish = false

[dependencies]
serde = { version = "=1.0.229", features = ["derive"] }
serde_json = "=1.0.154"
reqwest = { version = "=0.12.28", features = ["json"] }
tokio = { version = "=1.54.1", features = ["full"] }
tokio-postgres = "=0.7.18"
deadpool-postgres = "=0.12.1"
deadpool = "=0.10.0"
actix-web = "=4.18.1"
actix-ws = "=0.3.1"
clap = { version = "=4.6.7", features = ["derive"] }
log = "=0.4.35"
env_logger = "=0.10.2"
futures-util = "=0.3.34"
tokio-stream = { version = "=0.1.19", features = ["sync"] }
derive_more = "=0.99.20"
num-derive = "=0.4.2"
num-traits = "=0.2.19"
