[package]
name = "wasmstandalone"
version = "0.1.0"
edition = "2021"
publish = false

[dependencies]
region = "4.0.1"
