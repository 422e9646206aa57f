[package]
name = "magma"
version = "0.1.0"
edition = "2021"
publish = false

[dependencies]
magma-gpu = "*"
zerocopy = { version = "0.8", features = ["derive"] }
bitflags = "2"
thiserror = "2"
log = "0.4"
