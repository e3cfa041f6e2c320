[package]
name = "trading_cache"
version = "0.1.0"
edition = "2021"
rust-version = "1.95"
publish = false

[dependencies]
anyhow = "=1.0.104"
nautilus-core = { version = "=0.52.0", default-features = false }
nautilus-model = { version = "=0.52.0", default-features = false }
tracing = "=0.1.44"
ustr = "=1.1.0"
