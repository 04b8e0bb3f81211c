[package]
name = "oxiderr_codegen"
version = "0.1.0"
edition = "2021"
publish = false

[dependencies]
oxiderr = "0.1"
serde-value = "0.7"
