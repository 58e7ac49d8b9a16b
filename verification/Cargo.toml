[package]
name = "raginspect"
version = "0.1.0"
edition = "2021"
publish = false

[dependencies]
anyhow = "1"
chrono = "0.4"
clap = { version = "4", features = ["derive"] }
colored = "2"
comfy-table = "7"
pyo3 = "0.22"
serde = { version = "1", features = ["derive"] }
serde_json = "1"
sysinfo = "0.30"
tiktoken-rs = "*"
toml = "0.8"
