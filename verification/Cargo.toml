[package]
name = "roc_ray"
version = "0.1.0"
edition = "2021"
publish = false

[dependencies]
libc = "0.2"
matchbox_socket = "0.10"
tokio = { version = "1", features = ["rt-multi-thread", "sync", "time", "macros"] }
uuid = "1"
