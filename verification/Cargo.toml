[package]
name = "procjail"
version = "0.1.0"
edition = "2021"
publish = false

[dependencies]
seccompiler = "=0.5.0"
libc = "=0.2.191"
anyhow = "=1.0.104"
thiserror = "=1.0.69"
serde = { version = "=1.0.229", features = ["derive"] }
toml = "=0.8.23"
tracing = "=0.1.44"

[dev-dependencies]
tempfile = "=3.27.0"
