[package]
name = "exec_agent"
version = "0.1.0"
edition = "2021"
publish = false

[dependencies]
serde_json = "1.0"
libc = "0.2"
