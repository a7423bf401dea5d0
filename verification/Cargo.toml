[package]
name = "yeti_bigfile"
version = "0.1.0"
edition = "2021"
publish = false

[dependencies]
flate2 = "1"
queues = "1"
chrono = "0.4"
clap = { version = "4", features = ["derive"] }
log = "0.4"
serde = { version = "1", features = ["derive"] }
serde_json = "1"
xml-rs = "0.8"
glam = "0.29"
byteorder = "1"
