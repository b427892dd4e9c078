[package]
name = "neovide"
version = "0.1.0"
edition = "2021"
publish = false

[dependencies]
image = { version = "=0.25.10", default-features = false, features = ["ico"] }
lazy_static = "=1.5.1"
log = "=0.4.34"
nvim-rs = { version = "=0.9.2", features = ["use_tokio"] }
rmpv = "=1.3.1"
rust-embed = "=8.13.0"
skulpin = { version = "=0.9.5", default-features = false, features = ["skulpin_winit"] }
tokio = { version = "=1.54.1", features = ["process", "rt-multi-thread", "sync"] }
winit = "0.22"
