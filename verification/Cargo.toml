[package]
name = "swmr_barrier"
version = "0.1.0"
edition = "2021"
publish = false

[dependencies]
rustix = { version = "=1.1.5", features = ["thread"] }
loom = "=0.7.2"
