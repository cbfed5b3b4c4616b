[package]
name = "compio_sync"
version = "0.1.0"
edition = "2021"
publish = false

[dependencies]
atomic-waker = "*"
parking_lot = "*"
compio = "*"
compio-driver = "*"
io-uring = "*"
libc = "*"
windows-sys = "*"
