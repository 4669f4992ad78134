[package]
name = "seccomp_notify"
version = "0.1.0"
edition = "2021"
publish = false

[dependencies]
nc = "=0.8.23"
