[package]
name = "clash_verge"
version = "0.1.0"
edition = "2021"
publish = false

[dependencies]
getrandom = "=0.3.4"
gethostname = "=1.1.0"
anyhow = "=1.0.104"
serde = { version = "=1.0.229", features = ["derive"] }
serde_json = "=1.0.154"
serde_yaml_ng = "=0.10.0"
reqwest = { version = "=0.12.28", default-features = false, features = ["rustls-tls"] }
sysproxy = "=0.3.0"
network-interface = "=2.0.5"
dunce = "=1.0.5"
smartstring = "=1.0.1"
once_cell = "=1.21.4"
async-trait = "=0.1.92"
tokio = { version = "=1.54.1", features = ["fs", "rt-multi-thread"] }
junction = "=1.4.2"
