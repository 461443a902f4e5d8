[package]
name = "wireguard"
version = "0.1.0"
edition = "2021"
publish = false

[dependencies]
byteorder = "=1.5.0"
clear_on_drop = "=0.2.5"
futures = "=0.1.31"
snow = { version = "=0.10.0", features = ["risky-raw-split"] }
tokio-core = "=0.1.18"
tokio-io = "=0.1.13"
tokio-timer = "=0.1.2"
