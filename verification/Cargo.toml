[package]
name = "llvmlibc_build"
version = "0.1.0"
edition = "2021"
publish = false

[dependencies]
cmake = "0.1"
cc = "1.0"
