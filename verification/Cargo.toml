[package]
name = "spsc_ring"
version = "0.1.0"
edition = "2021"
publish = false

[dependencies]
array-init = "2"
crossbeam-utils = "0.8"
