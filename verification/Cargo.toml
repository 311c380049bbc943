[package]
name = "visit_rs"
version = "0.1.0"
edition = "2021"
publish = false

[dependencies]
proc-macro2 = "1"
quote = "1"
syn = "2"
futures = "0.3"
async-stream = "0.3"
