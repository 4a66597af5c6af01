[package]
name = "cuda_oxide"
version = "0.1.0"
edition = "2021"
publish = false

[dependencies]
combine = "4"
futures = "0.3"
pliron = "*"
pliron-derive = "*"
rustc-hash = "2"
thiserror = "2"
