[package]
name = "minelib"
version = "0.1.0"
edition = "2021"
publish = false

[dependencies]
clap = "4"
futures = "0.3"
log = "0.4"
nix = { version = "0.29", features = ["signal", "process"] }
pretty_env_logger = "0.5"
serde = { version = "1", features = ["derive"] }
serde_cbor = "0.11"
serde_yaml = "0.9"
tokio = { version = "1", features = ["full"] }
warp = "0.3"
