[package]
name = "unsend"
version = "0.1.0"
edition = "2021"
publish = false

[dependencies]
async-task = "4"
atomic-waker = "1"
concurrent-queue = "2"
futures-lite = "2"
slab = "0.4"
httparse = "1"
pin-project-lite = "0.2"
pin-utils = "0.1"
