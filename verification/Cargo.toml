[package]
name = "influxdb"
version = "0.1.0"
edition = "2021"
publish = false

[dependencies]
url = "2"
reqwest = { version = "0.12", default-features = false }
chrono = "0.4"
proc-macro2 = "1"
quote = "1"
syn = { version = "2", features = ["full"] }
