[package]
name = "generic_ec_core"
version = "0.1.0"
edition = "2021"
publish = false

[dependencies]
elliptic-curve = { version = "*", default-features = false, features = ["hash2curve"] }
k256 = { version = "*", default-features = false }
p256 = { version = "*", default-features = false }
stark-curve = "*"
sha2 = { version = "*", default-features = false }
