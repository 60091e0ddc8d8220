[package]
name = "sip_dialog_core"
version = "0.1.0"
edition = "2021"
publish = false

[dependencies]
rsip = "*"
get_if_addrs = "*"
tokio = { version = "*", features = ["sync", "rt", "time", "macros"] }
tokio-util = "*"
rsip-dns = "*"
