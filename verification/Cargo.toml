[package]
name = "protobuf_build"
version = "0.1.0"
edition = "2021"
publish = false

[dependencies]
protobuf = "=2.28.0"
protobuf-codegen = "=2.28.0"
protobuf-codegen-pure = "=2.28.0"
fs-err = "=3.3.2"

[dev-dependencies]
tempfile = "=3.27.0"
