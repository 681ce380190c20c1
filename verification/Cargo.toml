[package]
name = "ycsb_core"
version = "0.1.0"
edition = "2021"
publish = false

[dependencies]
rand = { version = "=0.8.8", features = ["small_rng"] }
sqlite = "=0.37.4"
sql-builder = "=3.1.1"
serde = { version = "=1.0.229", features = ["derive"] }
toml = "=0.5.11"
structopt = "=0.3.26"
anyhow = "=1.0.104"
