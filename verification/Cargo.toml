[package]
name = "dlep"
version = "0.1.0"
edition = "2021"
publish = false

[dependencies]
anyhow = "1"
bytes = "=1.12.1"
clap = { version = "4", features = ["derive", "env"] }
ipnet = "=2.12.2"
nix = { version = "0.30", features = ["socket", "net", "uio"] }
rustls = { version = "0.23", default-features = false, features = ["std", "tls12", "logging", "ring"] }
rustls-pemfile = "2"
serde = { version = "1", features = ["derive"] }
socket2 = { version = "0.5", features = ["all"] }
thiserror = "2"
tokio = { version = "1", features = ["full"] }
tokio-rustls = { version = "0.26", default-features = false, features = ["tls12", "logging", "ring"] }
tokio-util = { version = "0.7", features = ["codec"] }
toml = "0.8"
tracing = "0.1"
tracing-subscriber = { version = "0.3", features = ["env-filter"] }
