[package]
name = "ssip_server"
version = "0.1.0"
edition = "2021"
publish = false

[dependencies]
ttspico = "*"
cpal = "0.13"
tokio = { version = "1", features = ["rt", "net", "io-util"] }
