[package]
name = "dverf"
version = "0.1.0"
edition = "2021"
publish = false

[dependencies]
nusb = "0.1"
futures = "0.3"
num = "0.4"
thiserror = "2"
smol = "2"
arc-swap = "1"
futures-concurrency = "7"
tracing = "0.1"
tracing-subscriber = { version = "0.3", features = ["env-filter"] }
