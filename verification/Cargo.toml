[package]
name = "zenoh-flat"
version = "0.1.0"
edition = "2021"
publish = false

[dependencies]
zenoh = { version = "1", default-features = false, features = ["unstable"] }
