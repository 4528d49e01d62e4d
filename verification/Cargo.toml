[package]
name = "galactus_core"
version = "0.1.0"
edition = "2021"
publish = false

[dependencies]
chrono = "0.4"
tokio = { version = "1", features = ["rt-multi-thread", "macros", "time"] }
tonic = "0.6"
cdrs-tokio = "6"
async-trait = "0.1"
async_once = "0.2"
lazy_static = "1.4"
