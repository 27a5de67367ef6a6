[package]
name = "guideline_lints"
version = "0.1.0"
edition = "2021"
publish = false

[dependencies]
clippy_utils = "0.1.101"
rustc-semver = "1.1.0"
