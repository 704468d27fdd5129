[package]
name = "gpu_setup"
version = "0.1.0"
edition = "2021"
publish = false

[dependencies]
anyhow = "=1.0.104"
erupt = "=0.16.0+162"
