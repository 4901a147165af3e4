[package]
name = "iron_mq_rust"
version = "0.1.0"
edition = "2021"
publish = false

[dependencies]
serde_json = "=1.0.154"
hyper = "0.12"
hyper-tls = "0.3"
tokio-core = "0.1"
futures = "0.1"
num_cpus = "1"
