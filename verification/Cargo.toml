[package]
name = "detective"
version = "0.1.0"
edition = "2021"
publish = false

[dependencies]
protobuf = "=3.4.0"
streamdal-protos = "=0.1.57"
streamdal-wasm-detective = "=0.0.39"
