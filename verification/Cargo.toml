[package]
name = "proxy_api"
version = "0.1.0"
edition = "2021"
publish = false

[dependencies]
git2 = { version = "0.13", default-features = false }
kv = "=0.22.0"
radicle-source = "=0.2.1"
serde = { version = "=1.0.229", features = ["derive"] }
thiserror = "=1.0.69"
tracing = "=0.1.44"
warp = "=0.3.7"
