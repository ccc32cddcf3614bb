[package]
name = "cloudflare_ddns"
version = "0.1.0"
edition = "2021"
publish = false

[dependencies]
serde_json = "1"
log = "0.4"
dotenv = "0.15"
env_logger = "0.11"
reqwest = { version = "0.12", default-features = false, features = ["blocking"] }
