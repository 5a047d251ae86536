[package]
name = "peterfan"
version = "0.1.0"
edition = "2021"
publish = false

[dependencies]
serde_json = "1"
dirs = "5"
libc = "0.2"
sysinfo = "0.35"
