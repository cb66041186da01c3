[package]
name = "hyperlight-unikraft"
version = "0.1.0"
edition = "2021"
publish = false

[dependencies]
hyperlight-host = "*"
hyperlight-common = "*"
socket2 = { version = "*", features = ["all"] }
libc = "0.2"
clap = { version = "4", features = ["derive"] }
tracing = "0.1"
tracing-subscriber = { version = "0.3", features = ["env-filter"] }
