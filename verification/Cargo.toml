[package]
name = "rhai_fs"
version = "0.1.0"
edition = "2021"
publish = false

[dependencies]
rhai = "1"

[dev-dependencies]
tempfile = "3"
