[package]
name = "fast-local-sync"
version = "0.1.0"
edition = "2021"
publish = false

[dependencies]
crossbeam = "0.8"
exacl = "*"
filetime = "0.2"
pretty_env_logger = "0.5"
tokio = { version = "1", features = ["rt"] }
tracing = { version = "0.1", features = ["log"] }
warp = "0.3"
xattr = "1"
