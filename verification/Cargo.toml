[package]
name = "k8s_wfx"
version = "0.1.0"
edition = "2021"
publish = false

[dependencies]
anyhow = "1"
hyper-util = { version = "0.1", features = ["client-legacy", "http1", "tokio"] }
k8s-openapi = { version = "0.24", features = ["latest"] }
kube = { version = "0.98", default-features = false, features = ["client", "config", "openssl-tls"] }
lazy_static = "1"
tokio = { version = "1", features = ["rt-multi-thread", "time"] }
tower = { version = "0.5", features = ["util"] }
tracing-subscriber = "0.3"
