[package]
name = "wasihost"
version = "0.1.0"
edition = "2021"
publish = false

[dependencies]
errno = "=0.2.8"
getrandom = "=0.2.17"
libc = "=0.2.191"
parking_lot = "=0.12.5"
rand = "=0.8.8"
wasmer-clif-backend = "0.16"
wasmer-runtime-core = "=0.16.2"
