[package]
name = "texcache"
version = "0.1.0"
edition = "2021"
publish = false

[dependencies]
sha2 = "0.10"
which = "4"
nix = { version = "0.26", features = ["ioctl", "term"] }
