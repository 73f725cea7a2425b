[package]
name = "uarc_emu"
version = "0.1.0"
edition = "2021"
publish = false

[dependencies]
futures = "=0.1.31"

[dev-dependencies]
num = "=0.4.3"
