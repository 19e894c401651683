[package]
name = "prometheus-netapp-exporter"
version = "1.0.1"
edition = "2021"
publish = false

[dependencies]
getopts = "=0.2.24"
log = "=0.4.34"
prometheus = "=0.14.0"
reqwest = { version = "=0.12.28", default-features = false, features = ["blocking", "rustls-tls"] }
serde = { version = "=1.0.229", features = ["derive"] }
serde_json = "=1.0.151"
serde_yaml = "=0.9.34"
tokio = { version = "=1.53.2", features = ["macros", "rt-multi-thread"] }
warp = { version = "=0.4.3", features = ["server"] }
