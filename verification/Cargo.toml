[package]
name = "kube_switch"
version = "0.1.0"
edition = "2021"
publish = false

[dependencies]
clap = { version = "3.2", features = ["derive"] }
colored = "2"
dialoguer = "0.10"
dirs = "4"
k8s-openapi = { version = "0.14", default-features = false, features = ["v1_22"] }
kube = { version = "0.70", default-features = false, features = ["client", "config", "rustls-tls"] }
serde_yaml = "0.8"
tokio = { version = "1", features = ["macros", "rt-multi-thread"] }
