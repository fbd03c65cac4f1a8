[package]
name = "isal_node"
version = "0.1.0"
edition = "2021"
publish = false

[dependencies]
isal-rs = "=0.5.3"
neon = "=1.1.2"

[dev-dependencies]
flate2 = "1"
