[package]
name = "swapfc"
version = "0.1.0"
edition = "2021"
publish = false

[dependencies]
sd-notify = "0.1"
sysinfo = "0.15"
