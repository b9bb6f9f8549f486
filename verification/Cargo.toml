[package]
name = "sunk"
version = "0.1.0"
edition = "2021"
publish = false

[dependencies]
futures = "0.1"
hyper = "0.11"
log = "0.4"
md5 = "0.3"
rand = "0.4"
serde_json = "1"
tokio-core = "0.1"
