[package]
name = "metasearch"
version = "0.1.0"
edition = "2021"
publish = false

[dependencies]
url = "=2.5.8"
scraper = "=0.29.0"
regex = "=1.13.1"
base64-url = "=4.0.1"
fastrand = "=2.5.0"
num_cpus = "=1.17.0"
anyhow = "=1.0.104"
async-trait = "=0.1.92"
axum = "=0.7.9"
askama = "=0.12.1"
askama_axum = "=0.4.0"
clap = { version = "=4.6.7", features = ["derive"] }
reqwest = { version = "=0.12.28", default-features = false, features = ["json", "socks", "rustls-tls"] }
serde = { version = "=1.0.229", features = ["derive"] }
serde_yaml = "0.9"
thiserror = "=1.0.69"
tokio = { version = "=1.54.1", features = ["full"] }
tracing = "=0.1.44"
tracing-subscriber = { version = "=0.3.23", features = ["env-filter"] }
