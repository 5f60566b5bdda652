[package]
name = "pqrs"
version = "0.1.0"
edition = "2021"
publish = false

[dependencies]
arrow = "=60.0.0"
parquet = { version = "=60.0.0", features = ["json"] }
rand = "=0.8.8"
walkdir = "=2.5.0"
serde = { version = "=1.0.229", features = ["derive"] }
serde_json = "=1.0.151"
clap = { version = "=4.6.7", features = ["derive"] }
env_logger = "=0.11.11"
log = "=0.4.34"
thiserror = "=2.0.21"
linked_hash_set = "=0.1.6"

[dev-dependencies]
bytes = "=1.12.1"
