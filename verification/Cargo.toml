[package]
name = "crystal_api"
version = "0.1.0"
edition = "2021"
publish = false

[dependencies]
ash = "0.38"
ash-window = "0.13"
raw-window-handle = "0.6"
libloading = "0.8"
png = "0.17"
