[package]
name = "uring-operator"
version = "0.1.0"
edition = "2021"
publish = false

[dependencies]
crossbeam-deque = "0.8"
io-uring = "0.6"
libc = "0.2"
once_cell = "1"
