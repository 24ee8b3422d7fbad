[package]
name = "fungi_drone"
version = "0.1.0"
edition = "2021"
publish = false

[dependencies]
rand = "0.8"
rand_xoshiro = "0.6"
crossbeam-channel = "0.5"
