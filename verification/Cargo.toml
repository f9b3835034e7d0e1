[package]
name = "di_container"
version = "0.1.0"
edition = "2021"
publish = false

[dependencies]
parking_lot = "=0.13.0"

[dev-dependencies]
crossbeam-utils = "0.8"
