[package]
name = "pca9539"
version = "0.1.0"
edition = "2021"
publish = false

[dependencies]
cortex-m = "0.7"
embassy-futures = "*"
embassy-sync = "*"
embedded-hal = "1.0"
embedded-hal-async = "1.0"
spin = "0.9"
