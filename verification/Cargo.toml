[package]
name = "precept"
version = "0.1.0"
edition = "2021"
publish = false

[dependencies]
libloading = "*"
rand = "0.9"
rand_core = "0.9"
rustc_version_runtime = "*"
serde = { version = "1", features = ["derive"] }
serde_json = "1"
tracing = "*"
