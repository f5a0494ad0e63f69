[package]
name = "adbc_dummy"
version = "0.1.0"
edition = "2021"
publish = false

[dependencies]
arrow-array = { version = "57", default-features = false }
arrow-buffer = "57"
arrow-schema = "57"
