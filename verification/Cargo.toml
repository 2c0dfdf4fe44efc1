[package]
name = "hahaha"
version = "0.1.0"
edition = "2021"
publish = false

[dependencies]
anyhow = "1"
chrono = { version = "0.4", default-features = false, features = ["clock"] }
futures = "0.3"
hostname = "0.3"
hyper = { version = "0.14", features = ["client", "http1", "server", "tcp"] }
k8s-openapi = { version = "0.17.0", default-features = false, features = ["v1_26"] }
kube = { version = "0.80.0", default-features = false, features = ["client", "runtime", "ws", "rustls-tls"] }
lazy_static = "1"
prometheus = { version = "0.13", default-features = false }
thiserror = "1"
tokio = { version = "1", features = ["macros", "rt-multi-thread", "sync", "time"] }
tracing = "0.1"
tracing-subscriber = { version = "0.3", features = ["env-filter", "json"] }
