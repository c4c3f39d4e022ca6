[package]
name = "polar_clock"
version = "0.1.0"
edition = "2021"
publish = false

[dependencies]
chrono = "0.4"
