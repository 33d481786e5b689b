[package]
name = "self_update_extras"
version = "0.1.0"
edition = "2021"
publish = false

[dependencies]
self_update = { version = "=0.44.0", default-features = false, features = ["reqwest"] }
libc = "=0.2.191"
