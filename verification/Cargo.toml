[package]
name = "messages"
version = "0.3.1"
edition = "2021"
publish = false

[dependencies]
anyhow = "1"
async-channel = "1"
async-trait = "0.1"
futures = "0.3"
once_cell = "1"
tokio = { version = "1", features = ["rt", "rt-multi-thread"] }
