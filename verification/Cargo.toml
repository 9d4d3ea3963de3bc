[package]
name = "litellm_python_bridge"
version = "0.1.0"
edition = "2021"
publish = false

[dependencies]
futures-util = "=0.3.34"
pyo3 = { version = "=0.26.0", features = ["abi3-py39", "extension-module"] }
pyo3-async-runtimes = { version = "=0.26.0", features = ["tokio-runtime"] }
reqwest = { version = "=0.12.28", default-features = false, features = ["stream", "rustls-tls"] }
serde_json = "=1.0.154"
tokio = { version = "=1.54.1", features = ["rt-multi-thread", "sync", "time"] }
