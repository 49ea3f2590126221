[package]
name = "llm_manager"
version = "0.1.0"
edition = "2021"
publish = false

[dependencies]
arc-swap = "*"
reqwest = { version = "*", default-features = false }
