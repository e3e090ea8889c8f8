[package]
name = "secret_handshake"
version = "0.1.0"
edition = "2021"
publish = false

[dependencies]
sodiumoxide = "0.2"
futures-core = "0.3"
futures-io = "0.3"
