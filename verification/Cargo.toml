[package]
name = "pmsx003"
version = "0.1.0"
edition = "2021"
publish = false

[dependencies]
embedded-io = "0.6"
