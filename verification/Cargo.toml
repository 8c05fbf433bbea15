[package]
name = "paii"
version = "0.1.0"
edition = "2021"
publish = false

[dependencies]
toml = "*"
shellexpand = "*"
dirs = "*"
clap = { version = "*", features = ["derive"] }
clap_complete = "*"
colored = "*"
eyre = "*"
serde = { version = "*", features = ["derive"] }
serde_json = "*"
serde_yaml = "*"
tempfile = "*"
ureq = "*"
env_logger = "*"
log = "*"
