[package]
name = "addon_publish"
version = "0.1.0"
edition = "2021"
publish = false

[dependencies]
regex = "1"
chrono = "0.4"
semver = "1"
serde = { version = "1", features = ["derive"] }
serde_json = "1"
serde_yaml = "0.9"
reqwest = { version = "0.12", default-features = false, features = ["blocking", "json", "rustls-tls"] }
dirs = "5"
webbrowser = "1"
indicatif = "0.17"
console = "0.15"
log = "0.4"
env_logger = "0.11"
structopt = "0.3"
prettytable-rs = "0.10"
tokio = { version = "1", features = ["rt-multi-thread", "process", "io-util"] }
