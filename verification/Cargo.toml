[package]
name = "pullcore"
version = "0.1.0"
edition = "2021"
publish = false

[dependencies]
rustc_apfloat = "=0.2.3"
tokio = { version = "=1.53.2", features = ["time", "rt", "macros", "sync"] }
async-channel = "=2.5.0"
log = "=0.4.34"
serde = { version = "=1.0.229", features = ["derive"] }
rmp-serde = "=1.3.1"
