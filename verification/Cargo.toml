[package]
name = "veil"
version = "0.1.0"
edition = "2021"
publish = false

[dependencies]
ring = "=0.17.14"
base64 = "=0.22.1"
rand = "=0.8.8"
chrono = "=0.4.45"
uuid = { version = "=1.29.0", features = ["v4"] }
sha2 = "=0.10.9"
serde = { version = "=1.0.229", features = ["derive"] }
serde_json = "=1.0.154"
toml = "=0.8.23"
ipnet = { version = "=2.12.2", features = ["serde"] }
tokio = { version = "=1.54.1", features = ["full"] }
quinn = { version = "=0.11.12", default-features = false, features = ["runtime-tokio", "rustls-ring", "log"] }
rustls = { version = "=0.23.46", default-features = false, features = ["ring", "std", "tls12", "logging"] }
rustls-pemfile = "=2.2.0"
tokio-rustls = { version = "=0.26.6", default-features = false, features = ["ring", "logging", "tls12"] }
tokio-util = { version = "0.7", features = ["codec"] }
webpki-roots = "=0.26.11"
rcgen = { version = "=0.13.2", default-features = false, features = ["crypto", "ring", "pem"] }
axum = "=0.7.9"
clap = { version = "=4.6.7", features = ["derive"] }
tracing = "=0.1.44"
tracing-subscriber = { version = "=0.3.23", features = ["env-filter", "json"] }
dirs = "=5.0.1"
anyhow = "=1.0.104"
thiserror = "1"
reqwest = { version = "0.12", default-features = false, features = ["json", "rustls-tls"] }
ssh2 = "0.9"
console = "0.15"
dialoguer = "0.11"
indicatif = "0.17"
