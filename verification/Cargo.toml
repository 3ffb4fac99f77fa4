[package]
name = "woodchuck"
version = "0.1.0"
edition = "2021"
publish = false

[dependencies]
serde_json = "=1.0.151"
base64 = "=0.23.1"
serde = { version = "=1.0.229", features = ["derive"] }
anyhow = "=1.0.104"
log = "=0.4.34"
env_logger = "=0.11.11"
tokio = { version = "=1.53.2", features = ["full"] }
warp = { version = "=0.4.3", features = ["server"] }
reqwest = { version = "=0.13.5", default-features = false, features = ["json"] }
rusoto_core = { version = "=0.48.0", default-features = false, features = ["rustls"] }
rusoto_firehose = { version = "=0.48.0", default-features = false, features = ["rustls"] }
