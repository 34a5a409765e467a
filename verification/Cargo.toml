[package]
name = "buttre-engine"
version = "0.7.0"
edition = "2021"
publish = false

[dependencies]
unicode-normalization = "0.1"
rusqlite = { version = "0.31", features = ["bundled"] }
tracing = "0.1"
tracing-subscriber = { version = "0.3", features = ["env-filter"] }
anyhow = "1"
log = "0.4"
