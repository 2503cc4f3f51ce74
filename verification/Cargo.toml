[package]
name = "rrg"
version = "0.1.0"
edition = "2021"
publish = false

[dependencies]
log = "0.4"
prost = "0.6"
protobuf = "2"
