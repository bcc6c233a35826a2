[package]
name = "scrummage"
version = "0.1.0"
edition = "2021"
publish = false

[dependencies]
rustix = { version = "*", default-features = false, features = ["process", "std"] }
libc = "*"
