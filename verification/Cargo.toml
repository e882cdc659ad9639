[package]
name = "boa_dyncall"
version = "0.1.0"
edition = "2021"
publish = false

[dependencies]
boa_engine = "0.20.0"
boa_gc = "0.20.0"
boa_runtime = "0.20.0"
