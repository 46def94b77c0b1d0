[package]
name = "peripheral_core"
version = "0.1.0"
edition = "2021"
publish = false

[dependencies]
firefly-types = "=0.11.3"
