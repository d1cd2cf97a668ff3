[package]
name = "authcore"
version = "0.1.0"
edition = "2021"
publish = false

[dependencies]
argon2 = { version = "=0.5.3", default-features = false, features = ["alloc"] }
getrandom = "=0.2.17"
