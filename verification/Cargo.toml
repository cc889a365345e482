[package]
name = "kinto_http"
version = "0.1.0"
edition = "2021"
publish = false

[dependencies]
hyper = "0.10"
hyper-native-tls = "0.3"
serde_json = "1"
