[package]
name = "columnar"
version = "0.1.0"
edition = "2021"
publish = false

[dependencies]
vortex = { version = "=0.72.0", default-features = false, features = ["files", "tokio"] }
tokio = { version = "=1.53.2", features = ["fs", "rt-multi-thread", "macros", "io-util"] }
tracing = "=0.1.44"
tracing-subscriber = "=0.3.23"
eyre = "=0.6.14"
tap = "=1.0.1"
bon = "=3.10.2"
mimalloc = "=0.1.52"
