[package]
name = "swap_bench"
version = "0.1.0"
edition = "2021"
publish = false

[dependencies]
arc-swap = "1"
rand = "0.8"
