[package]
name = "heim-process"
version = "0.1.0"
edition = "2021"
publish = false

[dependencies]
libc = "0.2"
darwin-libproc = "*"
heim-common = "*"
futures = "0.3"
