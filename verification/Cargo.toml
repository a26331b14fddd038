[package]
name = "dsh_desktop"
version = "0.1.0"
edition = "2021"
publish = false

[dependencies]
anyhow = "1"
async-trait = "0.1"
env_logger = "0.11"
flate2 = "1"
futures-util = "0.3"
log = "0.4"
reqwest = { version = "0.12", default-features = false, features = ["rustls-tls", "stream"] }
serde = { version = "1", features = ["derive"] }
tar = "0.4"
tokio = { version = "1", features = ["rt-multi-thread", "macros", "process", "time", "fs", "io-util", "sync"] }
zip = { version = "2", default-features = false, features = ["deflate"] }
