[package]
name = "ekko"
version = "0.1.0"
edition = "2021"
publish = false

[dependencies]
byteorder = "=1.5.0"
rand = "=0.8.8"
socket2 = { version = "=0.5.10", features = ["all"] }
thiserror = "=1.0.69"
