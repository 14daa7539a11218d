[package]
name = "peachps"
version = "0.1.0"
edition = "2021"
publish = false

[dependencies]
byteorder = "1"
rand = "0.8"
tokio = { version = "1", features = ["full"] }
async-trait = "0.1"
libc = "0.2"
nix = "*"
thiserror = "1"
yaml-rust = "0.4"
