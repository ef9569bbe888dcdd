[package]
name = "wasmer_bridge"
version = "0.1.0"
edition = "2021"
publish = false

[dependencies]
wasmer = "=6.1.0"
wasmer-types = "=6.1.0"
wasmer-compiler-cranelift = "=6.1.0"
jni = "=0.19.0"

[dev-dependencies]
wat = "=1.261.0"
