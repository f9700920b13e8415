[package]
name = "sql_builder"
version = "0.1.0"
edition = "2021"
publish = false

[dependencies]
bit-vec = "*"
chrono = "*"
ip_network = "*"
serde_json = "*"
time = "*"
uuid = "*"
