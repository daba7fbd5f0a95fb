[package]
name = "lockbox"
version = "0.1.0"
edition = "2021"
publish = false

[dependencies]
passwords = "3"
clap = { version = "4", features = ["derive"] }
