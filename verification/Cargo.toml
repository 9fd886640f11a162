[package]
name = "flatbuffers_tonic"
version = "0.1.0"
edition = "2021"
publish = false

[dependencies]
flatbuffers = "*"
flatbuffers-reflection = "*"
bytes = "*"
tonic = "*"
flatbuffers-build = "*"
