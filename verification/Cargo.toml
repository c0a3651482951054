[package]
name = "sync_linux_no_libc"
version = "0.1.0"
edition = "2021"
publish = false

[dependencies]
nc = "*"
syscalls = "*"
