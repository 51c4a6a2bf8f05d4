[package]
name = "cloud_init"
version = "0.1.0"
edition = "2021"
publish = false

[dependencies]
async-trait = "=0.1.92"
base64 = "=0.13.1"
env_logger = "=0.10.2"
hmac = "=0.11.0"
hyper = { version = "=0.14.32", features = ["client", "http1", "http2", "tcp"] }
hyper-rustls = { version = "=0.24.2", features = ["http2"] }
log = "=0.4.34"
rustls = "=0.21.12"
serde = { version = "=1.0.229", features = ["derive"] }
serde_json = "=1.0.154"
sha2 = "=0.9.9"
tokio = { version = "=1.54.1", features = ["macros", "rt-multi-thread", "time"] }
toml = "=0.5.11"
