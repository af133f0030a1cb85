[package]
name = "rust_signal_and_slots"
version = "0.1.0"
edition = "2021"
publish = false

[dependencies]
threadpool = "*"
