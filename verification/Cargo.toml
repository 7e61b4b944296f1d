[package]
name = "swapfc"
version = "0.1.0"
edition = "2021"
publish = false

[dependencies]
sysinfo = "0.15"
libsystemd = "0.2"
