[package]
name = "rs_pfcp"
version = "0.1.0"
edition = "2021"
publish = false

[dependencies]
serde_json = "1"
serde_yaml_ng = "*"
