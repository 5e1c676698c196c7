[package]
name = "kube_client"
version = "0.1.0"
edition = "2021"
publish = false

[dependencies]
serde = "1"
serde_json = "1"
http = "0.2.12"
k8s-openapi = { version = "0.15", features = ["v1_20"] }
failure = "0.1.8"
