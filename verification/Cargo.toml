[package]
name = "whoami"
version = "0.1.0"
edition = "2021"
publish = false

[dependencies]
wasite = "=0.1.0"
redox_syscall = "=0.2.16"
