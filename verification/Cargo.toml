[package]
name = "kraken"
version = "0.1.0"
edition = "2021"
publish = false

[dependencies]
b64 = "=0.4.0"
uuid = { version = "=1.29.0", features = ["v4"] }
serde = { version = "=1.0.229", features = ["derive"] }
serde_json = "=1.0.154"
toml = "=0.8.23"
log = "=0.4.35"
env_logger = "=0.11.11"
dotenv = "=0.15.0"
tokio = { version = "=1.54.1", features = ["full"] }
futures = "=0.3.34"
futures-util = "=0.3.34"
async-trait = "=0.1.92"
reqwest = { version = "=0.12.28", default-features = false, features = ["json", "rustls-tls"] }
bollard = "=0.21.1"
lapin = { version = "=4.12.3", default-features = false, features = ["tokio"] }
flate2 = "=1.1.10"
tar = "=0.4.46"
sysinfo = { version = "=0.40.1", default-features = false, features = ["system"] }
pnet = "=0.35.0"
