[package]
name = "testkit"
version = "0.1.0"
edition = "2021"
publish = false

[dependencies]
smallvec = "1"
once_cell = "1"
parking_lot = "0.12"
