[package]
name = "exec_session"
version = "0.1.0"
edition = "2021"
publish = false

[dependencies]
bincode = "2"
uuid = { version = "1", features = ["v4"] }
