[package]
name = "cover_control"
version = "0.1.0"
edition = "2021"
publish = false

[dependencies]
ctrlc = "*"
paho-mqtt = { version = "*", default-features = false, features = ["bundled"] }
tokio = { version = "*", features = ["rt-multi-thread", "time", "sync"] }
