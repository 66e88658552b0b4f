[package]
name = "pyo3-asyncio"
version = "0.20.0"
edition = "2021"
publish = false

[dependencies]
pyo3 = { version = "0.20", features = ["auto-initialize"] }
pyo3-async = "0.3"
futures = "0.3"
once_cell = "1"
pin-project-lite = "0.2"
clap = "2"
tokio = { version = "1", features = ["full"] }
async-std = { version = "1", features = ["unstable"] }
inventory = "0.1"
syn = { version = "1", features = ["full"] }
quote = "1"
proc-macro2 = "1"
