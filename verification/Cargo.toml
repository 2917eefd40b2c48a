[package]
name = "ipc_messager"
version = "0.1.0"
edition = "2021"
publish = false

[dependencies]
libc = "0.2"

[dev-dependencies]
bincode = "1"
