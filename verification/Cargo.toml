[package]
name = "hexa_client"
version = "0.1.0"
edition = "2021"
publish = false

[dependencies]
async-trait = "0.1"
crossterm = "0.28"
prost = "0.13"
ratatui = "0.29"
tokio = { version = "1", features = ["macros", "rt-multi-thread", "sync", "time"] }
tokio-stream = "0.1"
tonic = "0.12"
