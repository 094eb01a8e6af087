[package]
name = "qhyccd"
version = "0.1.0"
edition = "2021"
publish = false

[dependencies]
educe = "*"
eyre = "0.6"
rand = "0.8"
thiserror = "1"
tracing = "0.1"
