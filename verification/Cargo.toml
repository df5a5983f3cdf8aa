[package]
name = "hls_interstitials"
version = "0.1.0"
edition = "2021"
publish = false

[dependencies]
actix-cors = "0.7"
actix-web = "4"
awc = { version = "3", features = ["rustls-0_23"] }
chrono = "0.4"
clap = { version = "4", features = ["derive", "env"] }
dashmap = "*"
env_logger = "*"
hls_m3u8 = "0.4"
json = "0.12"
lazy_static = "1"
log = "0.4"
mime = "0.3"
rustls = "0.23"
url = "2"
uuid = { version = "1", features = ["v4"] }
vast4-rs = "*"
webpki-roots = "*"
